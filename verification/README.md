# pilatus_leptos

The web frontend of Pilatus, an application framework for machine-vision
devices, in two parts:

- `src/` is the verified library. It holds the decisions the frontend takes:
  the state machine of the websocket that suspends while the page is hidden,
  how images from the stream are shown, the error recovery of
  server-persisted masks, primitive device parameters and their binding to
  recipe variables, the debounced upload of changed parameters, the recipe
  change stream, recipe tags and requests, the JSON editor of device
  parameters, the device pages' addresses and choices, notifications and the
  rules of the log bridge. Every public function states its result in its
  contract, and the laws that relate several functions stand there as proof
  functions.
- `app/` is the Leptos program around it: components, signals, requests and
  sockets. It asks the library what to do and carries it out.

`tests/` runs the library on concrete values.
