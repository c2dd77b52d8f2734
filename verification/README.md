# procactivity

Runs a command on x86-64 Linux, follows its system calls with `ptrace`, and shows which files it
tried to open, which it read from and which it wrote to.

    procactivity [-f] [--collapse-exec-retries] <command> [arguments]

The library in `src/` makes every decision and performs no input or output. It is verified with
Verus.

| module | what it holds |
|---|---|
| `args` | the command line, and the filter of the calls that are shown |
| `sysno` | the numbers and names of system calls, and what is counted of each |
| `syscall_info` | outcomes, arguments, tables of descriptors, and the record of a call |
| `arguments` | where the arguments of a call are found |
| `descriptors` | what a call does to the descriptors of its process |
| `protocol` | what the tracer asks of the operating system, and what it is told |
| `model` | the tracer as a mathematical state machine |
| `tracer` | what is counted and recorded, and the lists of files |
| `run` | a run of the tracer, one step at a time |
| `order`, `summary`, `text` | the table of calls by name, with their totals |
| `tracee` | the start of the process that is traced |
| `laws`, `history` | what holds of each step, and of whole runs |

`Tracer::step` and `Tracee::step` take the answer to what was asked for last and say what is to
be done next. The program in `app/` does it: it forks, waits, reads registers and memory, writes
lines, and hands back what came of each.

Calls into other crates stand behind small functions whose contracts are taken on trust; the
comment above each says what is claimed of the crate.
