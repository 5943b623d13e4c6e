//! The images that the user opened, which may be overwritten though they lie outside
//! the save directory.
//!
//! Only resolved (canonical) paths are remembered, so a symbolic link put in place
//! later does not widen what may be written. Each path is kept once (paths are
//! compared as `Path`s, component by component), and at most `OPENED_IMAGES_LIMIT` of
//! them: beyond that the oldest is forgotten first.
use vstd::prelude::*;
use std::collections::VecDeque;
use crate::paths::{paths_equal, same_path};

verus! {

/// How many opened images are remembered.
pub const OPENED_IMAGES_LIMIT: usize = 64;

/// Whether a list of remembered paths is well formed: within the limit, and no path
/// equal (as a `Path`) to an earlier one.
pub open spec fn valid_opened(s: Seq<Seq<char>>) -> bool {
    &&& s.len() <= OPENED_IMAGES_LIMIT
    &&& forall|i: int, j: int| 0 <= i < j < s.len() ==> !paths_equal(s[i], s[j])
}

/// Whether one of the paths `s` is equal to `p` as a `Path`.
pub open spec fn holds_path(s: Seq<Seq<char>>, p: Seq<char>) -> bool {
    exists|i: int| 0 <= i < s.len() && paths_equal(s[i], p)
}

/// The remembered paths after `p` is remembered: unchanged when a path equal to `p` is
/// already there; otherwise `p` is added last, after the oldest is dropped when the
/// limit is reached.
pub open spec fn remembered(s: Seq<Seq<char>>, p: Seq<char>) -> Seq<Seq<char>> {
    if holds_path(s, p) {
        s
    } else if s.len() >= OPENED_IMAGES_LIMIT {
        s.drop_first().push(p)
    } else {
        s.push(p)
    }
}

/// The resolved paths of the images that the user opened, oldest first.
pub struct OpenedImages {
    paths: VecDeque<String>,
}

impl View for OpenedImages {
    type V = Seq<Seq<char>>;

    closed spec fn view(&self) -> Seq<Seq<char>> {
        self.paths.deep_view()
    }
}

impl Default for OpenedImages {
    fn default() -> (r: Self)
        ensures
            r@ == Seq::<Seq<char>>::empty(),
    {
        let r = OpenedImages { paths: VecDeque::new() };
        assert(r@ =~= Seq::<Seq<char>>::empty());
        r
    }
}

proof fn lemma_remembered_valid(s: Seq<Seq<char>>, p: Seq<char>)
    requires
        valid_opened(s),
    ensures
        valid_opened(remembered(s, p)),
        holds_path(s, p) ==> remembered(s, p) == s,
        !holds_path(s, p) ==> remembered(s, p).len() > 0 && remembered(s, p).last() == p,
{
    let r = remembered(s, p);
    if !holds_path(s, p) {
        let base = if s.len() >= OPENED_IMAGES_LIMIT {
            s.drop_first()
        } else {
            s
        };
        assert(r == base.push(p));
        assert forall|i: int, j: int| 0 <= i < j < r.len() implies !paths_equal(r[i], r[j]) by {
            if s.len() >= OPENED_IMAGES_LIMIT {
                assert(base[i] == s[i + 1]);
                if j < base.len() {
                    assert(base[j] == s[j + 1]);
                }
            }
        }
    }
}

impl OpenedImages {
    /// Well formed: within the limit, and no path twice (as `Path`s).
    #[verifier::type_invariant]
    spec fn well_formed(&self) -> bool {
        valid_opened(self.paths.deep_view())
    }

    /// Remembers `path` (already resolved) as an image that the user opened.
    pub fn remember(&mut self, path: String)
        ensures
            final(self)@ == remembered(old(self)@, path@),
    {
        proof {
            use_type_invariant(&*self);
        }
        let ghost before = self.paths.deep_view();
        let mut i: usize = 0;
        while i < self.paths.len()
            invariant
                i <= self.paths.len(),
                before == self.paths.deep_view(),
                forall|j: int| 0 <= j < i ==> !paths_equal(before[j], path@),
            decreases self.paths.len() - i,
        {
            if same_path(self.paths[i].as_str(), path.as_str()) {
                assert(paths_equal(before[i as int], path@));
                return;
            }
            i = i + 1;
        }
        proof {
            lemma_remembered_valid(before, path@);
        }
        let mut paths: VecDeque<String> = VecDeque::new();
        core::mem::swap(&mut paths, &mut self.paths);
        if paths.len() >= OPENED_IMAGES_LIMIT {
            let _oldest = paths.pop_front();
            assert(paths.deep_view() =~= before.drop_first());
        }
        let ghost mid = paths.deep_view();
        paths.push_back(path);
        assert(paths.deep_view() =~= mid.push(path@));
        self.paths = paths;
    }

    /// The remembered paths, oldest first.
    pub fn snapshot(&self) -> (r: Vec<String>)
        ensures
            r.deep_view() == self@,
            valid_opened(r.deep_view()),
    {
        proof {
            use_type_invariant(self);
        }
        let mut r: Vec<String> = Vec::new();
        let mut i: usize = 0;
        while i < self.paths.len()
            invariant
                i <= self.paths.len(),
                r.deep_view() == self.paths.deep_view().take(i as int),
            decreases self.paths.len() - i,
        {
            let p = self.paths[i].clone();
            assert(self.paths.deep_view()[i as int] == p@);
            let ghost before = r.deep_view();
            r.push(p);
            assert(r.deep_view() =~= before.push(self.paths.deep_view()[i as int]));
            assert(r.deep_view() =~= self.paths.deep_view().take(i + 1));
            i = i + 1;
        }
        assert(self.paths.deep_view().take(i as int) =~= self.paths.deep_view());
        r
    }
}

/// Remembering an opened image keeps it: afterwards it (or a path equal to it, which
/// was there already) is among the remembered paths; each path is kept once, within the
/// limit.
pub proof fn law_remembered_image_is_kept(s: Seq<Seq<char>>, p: Seq<char>)
    requires
        valid_opened(s),
    ensures
        holds_path(remembered(s, p), p),
        remembered(s, p).contains(p) || remembered(s, p) == s,
        valid_opened(remembered(s, p)),
{
    lemma_remembered_valid(s, p);
    if !holds_path(s, p) {
        let r = remembered(s, p);
        assert(r[r.len() - 1] == p);
        assert(paths_equal(r[r.len() - 1], p));
    }
}

/// Remembering the same image twice is the same as remembering it once.
pub proof fn law_remember_is_idempotent(s: Seq<Seq<char>>, p: Seq<char>)
    requires
        valid_opened(s),
    ensures
        remembered(remembered(s, p), p) == remembered(s, p),
{
    lemma_remembered_valid(s, p);
    if !holds_path(s, p) {
        let r = remembered(s, p);
        assert(paths_equal(r[r.len() - 1], p));
    }
}

/// When a new image is remembered at the limit, only the oldest one is forgotten.
pub proof fn law_only_the_oldest_is_forgotten(s: Seq<Seq<char>>, p: Seq<char>, q: Seq<char>)
    requires
        valid_opened(s),
        s.contains(q),
    ensures
        remembered(s, p).contains(q) || (s.len() == OPENED_IMAGES_LIMIT && !holds_path(s, p)
            && q == s[0]),
{
    if !holds_path(s, p) {
        let i = choose|i: int| 0 <= i < s.len() && s[i] == q;
        if s.len() >= OPENED_IMAGES_LIMIT {
            if i > 0 {
                assert(remembered(s, p)[i - 1] == q);
            }
        } else {
            assert(remembered(s, p)[i] == q);
        }
    }
}

/// The paths after remembering each of `ps` in turn, starting from `s`.
pub open spec fn remember_all(s: Seq<Seq<char>>, ps: Seq<Seq<char>>) -> Seq<Seq<char>>
    decreases ps.len(),
{
    if ps.len() == 0 {
        s
    } else {
        remembered(remember_all(s, ps.drop_last()), ps.last())
    }
}

/// Remembering up to `OPENED_IMAGES_LIMIT` paths, no two equal, from nothing keeps them
/// all, oldest first, in the order in which they were remembered.
pub proof fn law_distinct_images_are_kept_in_order(ps: Seq<Seq<char>>)
    requires
        ps.len() <= OPENED_IMAGES_LIMIT,
        forall|i: int, j: int| 0 <= i < j < ps.len() ==> !paths_equal(ps[i], ps[j]),
    ensures
        remember_all(Seq::empty(), ps) == ps,
    decreases ps.len(),
{
    if ps.len() > 0 {
        let init = ps.drop_last();
        law_distinct_images_are_kept_in_order(init);
        if holds_path(init, ps.last()) {
            let i = choose|i: int| 0 <= i < init.len() && paths_equal(init[i], ps.last());
            assert(ps[i] == init[i]);
            assert(false);
        }
        assert(init.push(ps.last()) =~= ps);
    }
}

} // verus!
