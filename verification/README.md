# MarketPulse

MarketPulse collects what Baidu Finance and Eastmoney say about the stocks of the Chinese
A-share market into one SQLite database, shows the progress in a window, and looks stocks up in
what it has collected.

The rules of the crawl are a library that Verus verifies; the program around it does the input
and output.

## The library (`src/`)

| Module | What it decides |
|--------|-----------------|
| `text`, `number`, `json` | Texts, decimal numbers and JSON documents |
| `models` | What a visit to a stock brings |
| `calendar` | Days, clocks, trading days and holidays |
| `http` | Addresses, headers, cookies, the rate limiter, retries, and how Baidu's replies are read |
| `em_crawler`, `reports` | Eastmoney's reports: pages, the latest row of each stock, rows for the database, the second pass |
| `crawler` | The pace of the crawl: slots, refusals, new cookies, the way back to full speed |
| `db` | Tables and their migration, the rows that a visit writes, and which stocks a run leaves out |
| `tables`, `attempts` | What the tables hold once visits are written, and what becomes of an old table of attempts, as laws |
| `checklist`, `rescrape` | Which stocks lack data, and the rounds that ask for it again |
| `lookup`, `panel` | What the window shows of a stock, the ranking and the way back |
| `state`, `progress`, `verify` | The shared state, questions to the user, problems and links |
| `settings`, `launch`, `telegram` | Defaults, the start of a run, and the database sent to Telegram |

Times are nanoseconds on a monotone clock or seconds from the Unix epoch; they come in as
arguments, as do replies, rows of the database and draws of chance. Numbers that come from the
sources stay texts until they are stored. Calls into `serde_json`, `chrono`, `urlencoding` and
`rand` stand behind small functions whose contracts are taken on trust; each says so.

## The program (`app/`)

The window, the threads, the connections, the files and the database. `--headless` runs without a
window and takes `--trade-date`, `--db`, `--limit`, `--min-interval`, `--max-per-minute` and
`--force`. The list of codes is read from `assets/a_stocks.json` beside the program, settings from
`settings.toml`. The database is sent to Telegram from the window; it is not fetched back from
there.
