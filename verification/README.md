# netbsd_proc

Verified parsers and decisions for NetBSD's procfs, in Verus.

- `src/text.rs`: Unicode whitespace, the whitespace-separated fields of a line
  (the model of `str::split_whitespace`) and their positions.
- `src/decimal.rs`: unsigned decimal numbers as `str::parse` reads them.
- `src/status.rs`: wait channel and parent pid from `/proc/<pid>/status`,
  counted from the end of the line.
- `src/statm.rs`: program size and resident set size from `statm`.
- `src/memory.rs`: page size, peak RSS and thread count from what the system
  calls and `/proc/self/task` returned.
- `src/stdin.rs`: whether a process is blocked reading its standard input.
- `app/lib.rs`: the system calls and `/proc` reads that feed the library.
