# decune

The planning and start-up rules of a command line tool for development
containers, written and verified in Verus.

`src/` is the library. Every item of it is verified:

- `config`, `docker`, `types`, `hash_input`: the data that plans are made of.
- `services`: what planning asks of the rest of the tool. Contracts hold for
  whatever it answers.
- `plan`: the plan of a start before the image is known.
- `finalize`: how a plan is completed once images were looked at.
- `compose`: the file that adapts a Compose project, what it means for the hash
  of the configuration, and the variables that keep secrets out of it.
- `start`: what becomes of existing containers, how new ones are made and
  watched, and what is remembered of them.
- `mounts`, `uid_gid`, `messages`, `shell`, `startup_command`, `run`: the smaller
  rules.
- `text`, `text_map`, `paths`, `numbers`, `yaml`, `canonical`, `json`, `error`:
  text, ordered maps, container paths, rendering and errors.

Public proof functions state what holds of the library as a whole, such as that
the generated Compose file never depends on a secret, that a container is
started only once it is written down, or that completing a plan ends.

`app/` runs the library: it talks to Docker, reads and writes files, and drives
the steps that the library decides. `tests/` run the library with a small
stand-in for the rest of the tool.
