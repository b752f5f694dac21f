# gtkspot

The decision logic of a small GTK Spotify client, verified with Verus.

- `src/credentials.rs`: credentials built from a user name and password, and
  the steps that obtain the password from the keyring or from a typed line
  that is then kept in the keyring.
- `src/auth_poll.rs`: the decisions of the loop that polls an authentication
  URL, and the message that reports a refusal.
- `src/login.rs`: the login attempt, the screen that follows it, and the
  checks made before a session is built.
- `src/playback.rs`: the play/pause icon and the progress through a track.
- `src/search.rs`: what a track search asks for and hands on.
- `app/main.rs`: the program that performs the keyring, terminal, network and
  logging work that the library's decisions call for.
