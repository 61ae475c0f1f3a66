# bot_control

The decision logic of a Minecraft bot swarm controller, verified with Verus.

- `src/` is the verified library: the bot's menu as plain values and the
  slot bookkeeping on it, the killaura's weapon choice and attack steps, the
  stealer's block scan, the plans of the movement and scaffold modules,
  group command dispatch, quick tasks, the plugins' rules, the captcha link
  choice (matched by the `regex` crate) and the swarm status.
- `app/` is the program around it: the Tauri commands, the bots' I/O with
  the game through `azalea`, the runtime task and state registries, and the
  floating-point geometry (positions, head angles, averages).
- `tests/` runs the library on concrete values.
