# nextgcore

The N4 and N3 side of a 5G core's SMF and UPF, with its behaviour stated in
Verus contracts and proved.

- `src/` is the verified library: PFCP (N4) message building and parsing on
  both sides (`smf_n4`, `smf_session`, `smf_pfcp`, `upf_n4`, `upf_parse`,
  `upf_rules`), GTP-U framing and path management (`gtpu`, `gtpu_path`), the
  UPF data plane (`dp_rules`, `dp_urr`, `dp_session`, `dp_manager`,
  `dp_plane`, `dp_install`), IP QoS marking (`ip_qos`), and the SMF's
  configuration, SBI routing and request checks, SM policy and session
  report handling (`smf_config`, `smf_sbi`, `smf_policy`, `smf_report`,
  `sbi_text`).
- `tests/` runs the library on concrete values.
- `app/` is the UPF daemon around the library: arguments, logging, the TUN
  device, the N3 and TUN loops, rate policing, and the SMF's file and JSON
  handling. There is no SMF daemon here: its SBI server, PFCP client and
  NRF registration rest on SBI, PFCP and NGAP crates and on SMF context
  modules that this project does not have. The SMF's decisions stand in
  the library: request checks and routing (`smf_sbi`), SM Context Create
  and Update as step functions (`smf_create`, `smf_update`), the N4
  payloads and results (`smf_pfcp`), policy (`smf_policy`) and session
  reports (`smf_report`).
