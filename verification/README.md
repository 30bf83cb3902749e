# netstack_diagnostics

Reads and writes classic (libpcap) capture files and diagnoses Ethernet
frames from the wire upward (L2 → L3 → L4), with the logic verified by Verus.

- `src/bytes.rs` — big- and little-endian integers on the wire.
- `src/pcap.rs` — the capture reader/writer, its byte-level model and the
  proof that reading a written capture gives back the packets written.
- `src/wire.rs` — etherparse's headers: decoding a frame (each value read is
  named as a function of the frame's bytes) and building fixture headers.
- `src/certificate.rs` — the subject of an X.509 certificate, via x509-parser.
- `src/diagnosis.rs` — the diagnosis: `classify` states it over what is read
  of each layer, `diagnose_summary` computes it, `diagnose` decodes and
  diagnoses a raw frame; ESP and IKEv2 (certificate payload) handling.
- `src/fixtures.rs` — synthetic healthy and broken frames and a sample capture.
- `app/main.rs` — the command-line program: analyze a capture file, or write
  the sample capture.
