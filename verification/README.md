# torbox_client

The logic of a desktop client for TorBox, written and proved in Verus.

A request for a download or for a download link is a `Session`: a machine that
names the next piece of work (load the settings, post a form, read a chunk, ...)
and is told what came of it. `src/course.rs` states what follows from each reply,
and `src/laws.rs` proves what holds of whole requests: calls go out only under the
saved token, a request for a link creates, writes and probes nothing on the disk, a
finished download reports every byte of the body, and so on.

* `src/` is the verified library. It performs no input or output.
* `app/` is the desktop shell around it: HTTP, files, the window and its commands.
* `tests/` exercises the library as it is compiled.
