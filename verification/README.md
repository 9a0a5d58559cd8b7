# FileShare

Share files and text snippets with the devices on your local network. The desktop
application runs a small HTTP server; clients open the announced address (or scan its QR
code) in a browser, see the shared items live, download files (byte ranges included),
upload files and post texts.

## Layout

- `src/` — the library, verified with Verus. The decisions of the share live here with
  their contracts:
  - `network` — which interfaces and addresses a share is announced on (physical adapters
    win over virtual ones, sorted by priority and address), host names, the macOS hardware
    port listing;
  - `localization` — the English and Chinese texts and their placeholders;
  - `range`, `download` — the `Range` header and the answer to a download;
  - `naming`, `upload` — which form fields are stored, the names uploads are stored under,
    titles, and the retries that place an upload without overwriting;
  - `items`, `metadata` — the item list, its changes and its recovery from a backup;
  - `downloads`, `feed` — download activity and the event streams pushed to clients;
  - `server`, `control` — share information with QR codes, errors, and the desktop side's
    start, stop, update-check and drag-and-drop decisions;
  - `platform`, `services`, `text` — the calls into the standard library and the outside
    crates (QR codes, MIME types, percent encoding, identifiers, time), with the contracts
    the proofs rely on.
- `tests/` — tests of the library on concrete values.
- `app/` — the program: the Tauri window and tray, the axum server, files on disk and the
  system queries. It hands plain values to the library and acts on what comes back; what
  stays there is I/O, the window toolkit, and the floating-point parts (transfer speeds,
  the dimmed tray icon, progress percentages).
