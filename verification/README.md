# lua_ast_node

Syntax trees of Rust programs in the hands of Lua scripts: handles on nodes, and what a script can
ask of each kind of node and do to it.

- `src/ast` holds the tree: one type for each kind of node, with what it means for two of them to
  hold the same contents, and copies that do.
- `src/nodes` holds the requests of scripts, by kind of node; `src/laws.rs` what holds between
  them.
- `src/search.rs` finds an expression inside another one, `src/visit` lists the statements and
  items that stand in an item, and `src/filter_map` replaces chosen expressions throughout a tree;
  `src/settled` says when parentheses have the ids of what stands between them.
- `src/handle.rs` holds the handles: all handles on a node see the same node.
- `src/lua.rs` says what a script gets for each kind of value.
- `app` binds all of this to Lua with the `rlua` crate.
