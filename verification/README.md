# escpos_usb_gadget

A virtual Star Micronics receipt printer: a USB gadget that receives ESC/POS
bytes, decodes them into print events, and streams the events to a browser
animation over a WebSocket.

The decoding is a verified library (`src/`):

- `codepage` and `tables`: byte-to-Unicode decoding for the Star code pages.
- `event`: the print events and their mathematical model.
- `model`: the ESC/POS command grammar as specification, one command at a
  time (`step`) and for a whole stream (`run`).
- `protocol`: the stream parser, proved to produce exactly what `model`
  prescribes, holding incomplete commands back between USB packets.
- `laws`: properties across calls, above all that cutting the stream into
  packets anywhere leaves what is printed unchanged.
- `image_laws`: that a column-mode image, strip by strip, is read back as
  the row-major image of the dots the strips carry.
- `connection`: what a WebSocket connection to the frontend does next.
- `batching`: how decoded events are grouped into receipts for the frontend.
- `receipt`: an ESC/POS encoder for sample receipts, with laws that the
  parser reads back what it writes.
- `external`: the trusted calls into `base64` and `std`.

`app/` holds the daemon (USB gadget, WebSocket server, JSON form of the
events) and, as `main test-client`, the host-side test client.
