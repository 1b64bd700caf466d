# Carrot Cake

A "now streaming" notifier: it follows streamers on Twitch and keeps Discord
channels up to date about them.

There is no database. What a notification was for is written into the address
of its thumbnail, so that the bot can read its own messages back, edit them
while a stream goes on, and never tell a channel twice about the same stream.

## Layout

- `src/` is the library. It is verified with Verus: what each function does is
  stated in its contract, and what holds of the whole stands in proof functions
  whose names begin with `law_`.
  - `text`, `time`, `url`, `maps`, `util`: what the rest is built on. The
    boundaries to `chrono`, `url_builder`, `urlencoding`, `reqwest::Url` and
    `dashmap` are here and beside their only users.
  - `config`: what the bot was told to watch, turned round for each guild.
  - `discord`: formats, embeds, reading messages back, the cache, and the steps
    by which a channel is brought up to date.
  - `twitch`: who is live, events and when they count, and the connections over
    which they come.
- `app/` is the program around it: settings, files, network and tasks.
- `tests/` runs the library, with the real crates behind it.

## Settings

`CLIENT_ID`, `CLIENT_SECRET` and `BOT_TOKEN` are read from the process
environment, from `.env` or from `secrets.env`. `CONFIG_FILE` names the
configuration, `./config.yaml` by default:

```yaml
streams:
  - streamer_login: your_twitch_username
    notify:
      - guild_id: "your_server_id"
        channel_id: "your_channel_id"
        ping: "&your_group_id"
```

`DISCORD_CACHE` names the file in which the bot keeps what it has sent, by
default `carrot-cake-cache.json` in the temporary directory. `TWITCH_INIT`
overrides where events are delivered from. With `OTEL_ENABLED` set, telemetry
goes to a local collector.
