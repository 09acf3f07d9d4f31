# qpos_driver

The verified core of the QPOS desktop print driver, a tray application that
runs a small HTTP server on `127.0.0.1:9000` through which a point-of-sale web
client lists printers, reads and changes the driver settings, and sends print
jobs (raw ESC/POS slips or office documents) to Windows printers.

- `src/` is the library, verified with Verus:
  - `text`: Unicode trimming, line splitting, character replacement, decimals;
  - `model`: print-log entries, driver settings, the shared application state;
  - `history`: the entries the driver logs;
  - `state`: loading settings, the startup check of the default printer,
    settings changes and print records;
  - `server`: request routing and every endpoint's answer;
  - `print_job`: base64 payload decoding, temporary file names, the PowerShell
    spooling script and the spooler's verdict;
  - `printers`, `clock`: reading the output of the printer and time queries;
  - `desktop`: the tray menu.
- `app/` is the Tauri shell: window, tray, dashboard commands, the HTTP loop,
  JSON encoding, files and processes.
- `tests/` exercises the library on concrete values.
