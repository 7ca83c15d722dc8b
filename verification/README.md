# panca

A server benchmarking tool. `src/` is the verified library: the request
and token counters of the metrics plugins and their aggregation over
threads, the selection of plugins by name, the classification of
responses, the decisions of the worker loop (when to take a snapshot, when
a worker is done) and of the display loop, and the decoding of response
bodies as JSON. `app/` is the program around it: argument parsing, threads,
the async HTTP client, the float statistics and the printing.
