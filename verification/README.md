# reta

Rust meta: attributes that give control over items at compilation time
(`#[pub_]`, `#[pub_crate]`, `#[pub_super]`, `#[pub_in(path)]`, `#[priv_]`,
`#[async_]`, `#[sync_]`, `#[const_]`, `#[dyn_]`, `#[unsafe_]`, `#[safe_]`),
conditional compilation that also decides the compiler release channel
(`#[reta(...)]`, `#[reta_attr(...)]`, `reta_if!(...)` with `channel(...)`),
and the channel itself.

## Layout

- `src/` is the library, verified with Verus. Each attribute's decision is a
  function over a plain model of tokens and items, with a contract that
  states its result exactly. The laws the attributes obey (`#[reta]` acts as
  `#[cfg]` would if the compiler knew `channel(...)`, the later of two
  visibility or async-ness attributes decides, ...) are proof functions next
  to them.
  - `chan`: the channel, one `channel()` and `CHANNEL` per compiler channel.
  - `macros::tokens`, `macros::stream`: the token model, and token streams
    of `proc_macro2` read into it.
  - `macros::syntax`: items, `impl` and trait members, visibilities and
    headers, read by `syn` from the token stream an attribute is applied to.
    What `syn` reads is named, as a function of the stream's tokens.
  - `macros::cfg`, `macros::rif`: conditions, `#[reta]`, `#[reta_attr]`,
    `reta_if!`. `syn` reads the conditions from token streams; the
    evaluation is proved over what it reads.
  - `macros::asy`, `macros::saf`, `macros::vis`, `macros::con_`: async-ness,
    safety, visibility and const-ness of items and their members.
  - `macros::layout`, `macros::print`: the parts of a trait or an `impl` as
    written, and the tokens `#[const_]` and `#[dyn_]` write for it: `const`
    before `trait` or `impl`, each trait bound with its modifier and its
    path, bounds joined by `+` and predicates by `,`.
- `app/` hands the compiler's token streams to the library, and prints what
  it decides of a function's signature or an item's visibility back into
  `syn`'s tree of the item; the tokens of a rewritten trait or `impl` come
  from the library as they are.
- `tests/` exercises the library on concrete values.
