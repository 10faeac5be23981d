# switchyard-py

The core of the Python bindings for Switchyard's routing algorithms, verified with Verus.

The library works on plain values. It decides what the Python classes and functions do:

- `headers`, `header_laws`: request headers, from strings to an `http::HeaderMap`
- `request`: the request that starts a run
- `stream`: what a run yields, item by item
- `call`: one model call, completed at most once
- `json`: routing decisions as JSON objects
- `target`, `classifier`, `algorithms`: targets, settings, and what each algorithm is made from
- `failure`, `text`: the exceptions and their messages

`app/` holds the Python classes. It borrows Python objects, runs the algorithms of
`switchyard_libsy` and raises the exceptions.

Floating-point settings pass through the library as bit patterns; it never computes with them.
