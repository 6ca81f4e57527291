# media_bot

Telegram bots that answer a link to an X (Twitter) post or a TikTok video
with the media of that post, checked with Verus.

## Layout

- `src/` — the library, verified by Verus. It holds every decision the bots
  make: which links are accepted (`tiktok`, `twitter`, `links`), what a
  scraping service's JSON answer yields (`json`, `twitter`,
  `services::scraper_service`), what is sent back for each result
  (`telegram`, `services::message_service`), where a downloaded file is
  written (`scraper`, `links::handler`), and the texts of all errors.
  Calls into `reqwest` (URL parsing), `serde_json` (JSON text) and `infer`
  (file types) stand behind small trusted functions whose contracts name
  what those crates compute.
- `tests/` — tests of the library on concrete values.
- `app/` — the programs: the Telegram plumbing (`teloxide`), the HTTP
  requests, the file writes and the logging. They hand the library plain
  values and perform the actions it returns.

## Running

Set `TELOXIDE_TOKEN` to the bot's token and start the program. The first
argument picks the bot: none for the main bot (`/help`, `/twitter <url>`,
`/tiktok <url>`), `services` for the bot built on the service layer,
`download` for the bot that writes media to `./download`, `links` for the
bot of the link handlers. The scraping services are read from `X_LINK` and
`TK_LINK`.
