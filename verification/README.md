# v8_python

The verified core of a Python binding for the V8 JavaScript engine.

`src/` holds the binding's own logic as a Verus library, each public function
with a contract that Verus proves: isolate bookkeeping and release order, the
timer queue behind `setTimeout`/`setInterval`, JavaScript exception
reporting, value classification and conversion decisions, property
attributes and descriptors, typed-array and buffer lengths, the WebAssembly
module cache, module resolution, the console, profiles and the context
builder.  The laws the library keeps are public proof functions next to the
code they are about.

`app/` is a partial Python extension module (pyo3): isolates, contexts with
`eval`, the console and timer host APIs, startup data, property attributes
and the garbage-collection hooks.  It reads values out of the engine, hands
them to the library as plain values and performs what the library decides.
Much of the library (compiling, modules, WebAssembly, the inspector, value
conversion, profiles and the context builder) has no binding there yet.

`tests/` runs the library on concrete values.
