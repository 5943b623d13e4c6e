# flashcap

The logic of FlashCap, a screenshot and screen-recording tool, as a library verified
with Verus, and the Tauri application around it.

- `src/` is the library. Every function carries a `requires` / `ensures` contract that
  Verus proves; the properties that span several calls are public proof functions
  named `law_*`. Calls into `base64`, `image`, `url` and a few functions of std stand
  behind trusted wrappers whose doc comments say what they claim.
  - `handshake`, `startup`: holding work (captures, images, highlight requests) until the
    front end is ready, and what a launch, a second launch or an opened URL does.
  - `args`: which command-line arguments are images or capture requests.
  - `images`, `codec`: what is written when an edited image is saved, and how image
    bytes are decoded and re-encoded.
  - `opened`: the bounded list of images that the user opened.
  - `capture`: capture settings, save directories, the trust check on the working
    directory's ancestors, the purge of foreign entries and work-directory names.
  - `auto_copy`, `menu_bar`, `ocr`, `video`: copying captures to the clipboard, the
    menu-bar menu, text recognition, and recording and export arguments.
  - `text`, `paths`: string and path helpers stated over `Seq<char>`.
- `tests/` runs the library on concrete values.
- `app/` is the Tauri application: windows, processes, files and the event loop. It
  asks the library what to do at each step.
