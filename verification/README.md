# retrodate

Retrodate dates the photos of an Immich server from the date, and the time when
there is one, written in their file names (`Screenshot_20230927_191315.jpg`,
`IMG-20260309-WA0016.jpg`, ...).

The logic is a library verified with Verus, under `src/`:

- `digits`: reading integers from ASCII text and writing years in decimal.
- `civil`: dates and times, the units of a span of time, and the calls into
  `jiff` that read, write, subtract and compare them.
- `pattern`: the regular expressions that find dates and times, and the calls
  into `regex`.
- `extract`: which date and time a file name carries.
- `immich`: what the Immich API sends and receives, and how a failed request is
  explained.
- `config`: the client, the mode, the years searched and the command line.
- `run`: a run over the years, as a state machine that decides what to report
  and which request to make next.
- `laws`: what holds across the operations of a run, step by step and over a
  whole run given as its sequence of states, events and steps.

The program under `app/` reads the command line, performs the HTTP requests
with `ureq` and prints what the run reports.
