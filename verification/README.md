# fn_builder

The core of a procedural macro that turns a function with positional arguments into a builder. It
decides how the function is left standing, what its builder, its starting and its finishing function
are called, which generics, attributes and documentation they get, and which call finishes the
building. It is written in Verus: every function in `src/` states what it returns and is proved to
return it.

- `tokens`, `attrs`, `item`: names, attributes and functions as plain values
- `generics`: merging the generics of an impl block and of a function in it
- `propagated`: attributes that are passed on to the finishing function
- `naming`: the names of what is generated
- `adapted`: the function as it is left standing
- `config`, `builder_params`, `error`: what goes in, what comes out, and what can be wrong
- `input_fn`: from a function to the description of its builder
- `call`: the call that finishes the building

`app/` reads and writes `syn`'s syntax trees.
