# timeturner

Keeps the system clock in step with linear timecode (LTC). A decoder reports frames at a
serial port; the synchroniser measures the clock against them and sets it when it is asked
to, or when it has been out of sync for five seconds. A terminal display shows how it does.

- `src/` is the library, verified with Verus: the time that a frame stands for, what is
  measured of it, when the clock is set and to what, and every line of the display.
- `app/` is the program around it: threads, the serial port, the configuration file, the
  terminal and the system commands.
- `tests/` runs the library on concrete values.

| module         | what it holds                                                     |
|----------------|-------------------------------------------------------------------|
| `civil`        | dates and times as plain numbers, and the calls of chrono         |
| `decimal`      | decimal text of integers                                          |
| `frame`        | LTC frames, the time they stand for, deltas, the text of a time   |
| `sync_manager` | measurements, manual syncs, the timer of automatic syncs          |
| `ui`           | colours, grades, the cached delta, the log, the keys, the screen  |
| `network`      | the addresses that the display shows                              |
| `service`      | system commands and their replies                                 |
| `startup`      | command line                                                      |
| `text`         | texts of several parts                                            |
