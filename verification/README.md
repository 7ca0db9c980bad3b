# callwatch

A Discord bot that opens public voice channels while staff are in them and announces the
calls. The decisions are a Verus-verified library; `app/` talks to Discord.

- `src/channel.rs`: permission overwrites of a channel and how showing or hiding a channel
  rewrites them, with the laws of that rewrite (hiding denies "View Channel"; showing, where it
  acts, clears that denial from the first @everyone overwrite; hiding twice is hiding once;
  neither changes whether @everyone may speak). Showing does nothing when exactly one
  @everyone overwrite denies "View Channel", so a channel hidden this way is not shown again.
- `src/permissions.rs`: permission bits, overwrites, members and who counts as staff for a
  channel (by the member's permissions in it).
- `src/voice/`: announcement labels, prepared messages and their cooldown database, the
  broadcaster, the voice-state classification and the voice channel manager's decisions.
- `src/keyed.rs`: lists looked up by key, where the first entry for a key counts (prepared
  messages by label, cooldowns by text, roles by id).
- `src/text.rs`: decimal rendering of integers.
- `app/`: the bot itself: Discord events, requests and replies around the library's calls.
