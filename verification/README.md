# jit_shipper

Tools for enabling JIT on iOS devices: finding connected devices, fetching the
developer disk image that matches a device's iOS version, and installing
libimobiledevice.

- `src/` is the verified library (Verus):
  - `device.rs`: device records, the commands that run the libimobiledevice
    tools on each platform, and the parsing of what those tools print.
  - `backend.rs`: the state that the graphical and the text interface share,
    and how user actions change it.
  - `dmg.rs`: the retrieval of a developer disk image as a state machine whose
    caller performs each file, network and archive action.
  - `install.rs`: package-manager detection and install commands.
  - `prompt.rs`: answers to terminal prompts and command-line flags.
  - `text.rs`: splitting and trimming of text.
- `app/` is the program around it: process, network, file-system and GUI work.
- `tests/` exercises the library.
