# pyrefly_types

The types of a Python type checker, and what the checker does with them: comparing and ordering
types, substituting for type parameters, walking and rewriting types, truncating them,
materializing what is gradual in them, and forcing type-level shape applications.

The library is written in Verus: its functions have contracts, and the contracts are proved.

## Layout

- `data`, `names`, `styles`: the data.
- `view`: the mathematical models that all contracts speak of; `parts`: what a model is larger than.
- `outside`, `tables`, `digest`: the collections of other crates, and hashing, behind contracts that
  are not proved here.
- `copy`, `same`, `equal`, `equivalence`: copying and equality.
- `tokens`, `spell`, `spelling`, `order`, `equiv`: spellings, the order of types, and equality up to
  the choice of variables.
- `slots`, `visit`: which types a type holds, and how they are taken out and put back.
- `search`, `transform`, `rewrite`, `rewrite_laws`: walks over all the types in a type.
- `variables`, `positions`, `materialize`: the places where type variables can be written.
- `truncate`, `subst`, `dsl`: truncation, substitution, and shape applications.
- `tparams`, `targs`: type parameters and type arguments.
- `forms`, `functions`, `toplevel`, `metadata`: building types, telling them apart, and what is known
  of functions.

What holds of the library as a whole is stated by public proof functions, named `lemma_`, beside
the functions that it is about.
