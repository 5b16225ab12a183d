# ttyhang

Reproduces a hang of `io_uring_enter` on a pseudo terminal: a read of the master
side that is issued as non-blocking blocks inside the kernel because another
reader sleeps on the same terminal, and the timeout linked to the read never
fires.

    ttyhang [--control] [ATTEMPTS]

Up to `ATTEMPTS` attempts are made, five by default. The exit code is 0 if an
attempt hung, 1 if none did or no ring could be set up, and 2 if a hang did not
end when input was fed. `--control` makes one run without the competing reader;
once that run is over the exit code is 0, unless the watchdog ended the program
before. A request to the terminal that fails is a panic.

`src/` is the verified library. It makes no system call: it computes the layout
of the rings, the stores that queue the read, the processor to pin to and the
lines to print, and it decides in four state machines (`campaign`, `attempt`,
`setup`, `watchdog`) what is done next. `app/` performs what the library asks
for.
