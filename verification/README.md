# fmd-adm

Administrative access to the illumos Fault Management Daemon (`libfmd_adm`).

- `src/` is the verified library. It turns what the daemon hands back (return
  codes, error messages, module/resource/case/SERD/statistic records) into owned
  values, decodes flag words and statistic values, checks and prepares the C
  string arguments of each command, and renders statistic values and transport
  identifiers as text. Each of these functions carries a contract proved by Verus.
- `app/` holds the handle `FmdAdm`: the C declarations of `libfmd_adm`, the calls
  themselves, the copying of C records into the library's raw record types, and
  an error type with `thiserror` derives.
- `tests/` exercises the library on concrete records and values.
