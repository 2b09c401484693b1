# buckshot

The verified core of a Minecraft name sniper.

`src/` is a Verus library: the configuration rules (`config`), the command
line (`cli`), the decisions taken on each reply of the Mojang, Microsoft,
Xbox Live and Minecraft services (`requests`, `msauth`, `fragment`), the
sign-in walk over the configured accounts and the rules around one snipe
(`session`), the wire format, timetable and reply handling of the snipe
requests (`sockets`, `socket`), the JSON bodies of the service requests,
two single-account snipers (`logic`, `runner`) whose runs, snipes and
sign-ins are step functions from state and event to next state and action,
and the laws that tie them together (`laws`).

`app/` is the program around it: it reads `config.toml` and the command
line, talks to the services over HTTP, sends the timed requests over TLS and
prints what happens, asking the library at every step what to do.
