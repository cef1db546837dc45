# symbolicator-service

Downloads debug files from several kinds of sources: HTTP servers, directories, Sentry, S3 and GCS.

`src/` holds the decisions, verified with Verus: which locations to search, which headers to send,
what the answer of a server means, when to try again, how to store a stream, and what to report
about it. `app/` performs them with tokio and reqwest. `tests/` runs the decisions on examples.

| module       | what it decides                                             |
|--------------|-------------------------------------------------------------|
| `duration`   | lengths of time, and how long a download may take           |
| `error`      | how failures are reported                                   |
| `filesystem` | files of the local filesystem                               |
| `headers`    | the headers of requests, and the length of an answer        |
| `http`       | files of HTTP servers                                       |
| `location`   | the paths at which a file is searched                       |
| `measure`    | the time that downloads take, and their speed               |
| `response`   | what the answer of a server means                           |
| `retry`      | how often something is attempted                            |
| `service`    | which downloader is used, and what came of a download       |
| `source`     | the sources and the files in them                           |
| `stream`     | the steps of storing a stream in a file                     |

The filters and layouts of sources are opaque here: whoever uses the library supplies the functions
that interpret them.
