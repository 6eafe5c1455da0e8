# sse_discord_bot

A Discord bot for a student society: members verify a university email
address with a one-time code, and officers approve onboarding requests that
create an Authentik account, add it to a group and send the member a
recovery link.

The rules of the bot live in `src/` and are verified with Verus:

- `config/` reads the settings from a snapshot of the environment
  (features, email domains, onboarding targets, every module's settings);
- `domain/` holds email addresses, preferred names, verification codes and
  the onboarding request with its workflow (decide, claim, complete, fail);
- `pending`, `verify` decide what a code check, a slash command, a modal or
  a member joining leads to;
- `onboard` builds every message and check of the onboarding commands;
- `gates` fixes the order in which each command's checks apply, as a
  step function from what the command knows to what it does next;
- `provisioning` is the provisioning of an approved request as a state
  machine from event to next action;
- `authentik`, `rows`, `email` hold the rules around the Authentik API, the
  database rows and the verification email;
- `text`, `decimal`, `urls`, `crypto` are the string, number, URL and
  hashing helpers the rest is proved against.

`app/` is the program around it: Discord (poise), PostgreSQL (sqlx), SMTP
(lettre), HTTP (reqwest), logging and the environment. It performs the
actions the library names and hands the results back.
