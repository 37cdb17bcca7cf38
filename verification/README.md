# lazy_pmem

A persistent-memory region whose pages are brought in when they are first
touched: a page fault on data is answered with a page of a cache file that a
backend fills on request, a page fault on padding with zeros.

The library in `src/` works on plain values and performs no I/O. It decides what
is asked for, what is accepted and how each fault is resolved.
What takes several system calls is a chain of steps; each step says what to do
next and takes what came of it.

- `client`: the client of a backend, and which ranges may be asked for and
  which may be returned
- `wire`: the messages of the fetch protocol
- `fetch`: one fetch, from the request to the cache file
- `socket`: connecting to the backend
- `userfaultfd`: page faults handled in user space
- `region`: registering a region
- `handler`: resolving the faults of a region
- `laws`: what holds of all of these together
- `error`, `os`, `text`: errors, system call replies, numbers as text

`app/` performs the system calls, waits for faults (again where a wait was
interrupted or nothing was there to read), reads the replies from JSON and runs
the thread that resolves the faults.
