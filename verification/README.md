# unity

Verified core of a library for Il2Cpp runtime structures.

- `src/system/string.rs`: managed strings (`SystemString`) and UTF-16 to
  UTF-8 transcoding, with an ASCII fast path proved to agree with full
  decoding on text without NUL.
- `src/il2cpp/`: method and parameter records, generic instantiation
  contexts, and the minimal class record they read.
- `src/system/action.rs`: delegate classes; constructors decide which class
  to instantiate and what its constructor is given.
- `src/class_method.rs`: the attribute grammar of the class-method generator
  and the plan of the body it emits.
- `app/`: the token-level front end of the generator (syn, quote).

Runtime calls into the game process (instantiation, delegate constructors,
string methods resolved by offset) are not part of this crate.
