# Console client

An interactive console client for a messenger, with its decisions verified by Verus.

- registration with an email address and a phone number, or with either of them
- login, logout and switching between saved accounts
- a socket to the chat service
- a local chat list with unread counters
- chat histories, messages and read confirmations
- showing and editing profiles

## Layout

`src/` is the verified library. It performs no input or output: `App::request` says what the client
waits for, and `App::step` takes what came of it. What is to be printed or stored in between comes
from `App::take_output`.

| module | what it holds |
| --- | --- |
| `text` | comparison, trimming, decimal numbers, shortened identifiers |
| `wire` | users, profiles, messages, the actions and events of the chat service |
| `config` | the configuration and the places of the stored files |
| `auth` | requests to the authorization service and the meaning of its replies |
| `sessions` | saved accounts and their tokens |
| `chats` | the chat list |
| `console` | everything that is printed |
| `app` | the state of the client, its requests and events |
| `model` | the behaviour of the client, as a mathematical function |
| `flow` | the executable client, proved to behave as the model |
| `laws` | what holds of the client whatever happens |
| `journeys` | what holds over several steps |

`app/` is the program around the library: the terminal, HTTP, the socket, the keyring, the files and
the clock. `tests/` runs the library.

## Configuration

`config.toml` stands beside the manifest:

```toml
[auth]
base_url = "http://127.0.0.1:2131"

[chat]
ws_url = "ws://127.0.0.1:3121/ws"
default_history_limit = 50

[session]
default_lifetime_seconds = 3600

[ui]
clear_screen_on_menu = true
```

The history limit and the last two tables may be left out; the values above are their defaults.
