# rtk_core

The core of rtk, a filter that shortens the output of commands: its settings, the output limits that
they set, and "tee", which saves the unfiltered output of a command to disk and tells the reader where
to find it and which lines of it matter.

`src/` is the library. It is written in Verus, and every function in it is proved to meet its
contract. The laws that hold across functions stand beside them as public proof functions whose names
begin with `law_`.

| module | holds |
| --- | --- |
| `config`, `tee_config`, `index_rule` | the settings, their defaults, and how a configuration file is filled in |
| `limits` | the limits in force in a process, and lossless mode |
| `tee` | what is saved of an output, under which name, and when |
| `tee_run` | saving an output step by step: from state and event to state and action |
| `rotation`, `chronology` | which saved outputs leave a full directory, and why these are the oldest |
| `index`, `index_block`, `hint` | the hint about a saved output, with its index of lines |
| `text`, `truncate`, `lines` | characters, UTF-8 sizes, cutting, splitting into lines |
| `paths`, `pattern` | what the library takes on trust of `std::path`, `dirs` and `regex` |

`app/` is ordinary Rust around the library: it reads and writes the configuration file, asks the
environment and the clock, and performs on disk what a run asks for.
