# boe

Monitors a Bambu Lab printer over MQTT and FTP and exposes a subset of the OctoPrint API to query
its state.

- `GET /api/printer`: the state and the temperatures, without history.
- `GET /api/job`: the file, with a name that resolves to a valid download link, and the progress.
- `GET /downloads/files/local/<name from /api/job>`: the current gcode, cached from FTP. The path
  from `/api/job` does as well as the name.

The library in `src/` is verified with Verus:

- `printer_spy`: what the printer's reports say about its state and about the file it prints.
- `spying`: when to look for the printer, to connect to it, and to start over.
- `search`: the search for that file, as a conversation with the printer's FTP server.
- `fetching`: when to look for a file, to fetch it, and to serve what was fetched.
- `slurper`: the gcode of a job, and what is made of the file that holds it.
- `plates`, `listing`: names of plates, and lines of FTP listings.
- `connection`: a connection that is kept for a while after use.
- `octoprint_server`: the documents of the API.
- `access`, `config`: who may use the API.
- `downloads`: which file can be downloaded, and under which path.
- `json`, `paths`, `text`, `clock`: documents, Unix paths, text and time as plain values.

Functions named `law_..` state what holds of the library as a whole. Functions marked
`external_body` call other crates; what is believed of each is said above it.

The program in `app/` does the input and output. It reads its settings from the file that
`BOE_CONFIG_FILE` names. There `printer.search_dirs` lists the directories on the sdcard that a file
is looked for in (`/` and `/models` where it is not set). It reads the certificate of the printers'
authority from `res/bbl.pem` or the file that `BOE_CA_FILE` names.
