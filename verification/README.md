# stream_chat

A modular chat aggregator: sources (YouTube live chat, Twitch, IRC, standard
input, a dummy) produce events, destinations (console, web page, SQLite)
consume them, and a middleware turns chat messages into commands.

- `src/` is the verified library (Verus): the event model, how every source
  turns what it receives into events, the recognition of chat commands, the
  default configuration, the console rendering and the web feed's greeting.
- `app/` is the program around it: command line, configuration file, network
  clients, channels between the modules, serialisation and the web server.
- `tests/` runs the library on concrete inputs.
