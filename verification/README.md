# frikadellen_baf

A bot that flips items on an auction house and a bazaar.

`src/` is the decision logic, verified with Verus. It holds no connection and starts no task: events
come in as plain values, and what is to be done comes out as a list of actions or tasks.

- `text`, `letters`, `json`, `coins`, `announce`: texts, numbers, JSON and coin amounts
- `messages`, `items`, `inventory`, `scoreboard`: what the game shows
- `client`, `commands`, `turns`, `windows`, `startup`: what the bot does in the game
- `flips`, `trader`, `processor`, `routing`: what is done about flips, reports and commands
- `config`, `sessions`, `web`: settings, sessions with the flip service, the web interface
- `flows`: what holds of whole purchases, orders and listings

`app/` connects the logic to the game, the flip service, the console, the configuration file and the
web. `tests/` runs the logic on concrete values.
