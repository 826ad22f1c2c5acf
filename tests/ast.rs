use roc_ast::ast::{Base, Expr2, FunctionDef, IntStyle, IntVal, Rigids, ValueDef};
use roc_ast::inline_str::{SmallStr, SMALL_STR_BYTES};
use roc_ast::ids::{Pattern2, Symbol, Type2, Variable};
use roc_ast::pool::{NodeId, Pool, PoolVec, ShallowClone, NODE_BYTES};

#[test]
fn size_of_intval() {
    assert_eq!(std::mem::size_of::<IntVal>(), 16);
}

#[test]
fn size_of_expr() {
    assert_eq!(std::mem::size_of::<Expr2>(), NODE_BYTES);
}

#[test]
fn payloads_fit_the_node_budget() {
    assert!(std::mem::size_of::<SmallStr>() < NODE_BYTES);
    assert!(std::mem::size_of::<roc_ast::ast::FloatVal>() <= 16);
    assert!(std::mem::size_of::<(IntVal, Variable, IntStyle, roc_ast::pool::PoolStr)>() <= NODE_BYTES);
    assert!(std::mem::size_of::<(i128, Variable, IntStyle, roc_ast::pool::PoolStr)>() <= NODE_BYTES);
    assert_eq!(std::mem::size_of::<PoolVec<Expr2>>(), 8);
    assert_eq!(std::mem::size_of::<NodeId<Expr2>>(), 4);
    assert_eq!(std::mem::size_of::<Symbol>(), 8);
    assert_eq!(std::mem::size_of::<Variable>(), 4);
}

#[test]
fn allocate_small_int_literal() {
    let mut pool: Pool<Expr2> = Pool::new();
    let text = pool.intern_string("42").unwrap();
    let id = pool
        .allocate(Expr2::SmallInt {
            number: IntVal::I64(42),
            var: Variable { id: 7 },
            style: IntStyle::Decimal,
            text,
        })
        .unwrap();
    match pool.get(id) {
        Expr2::SmallInt { number, style, text, .. } => {
            assert_eq!(*number, IntVal::I64(42));
            assert_eq!(*style, IntStyle::Decimal);
            assert_eq!(pool.get_str(*text), b"42");
        }
        other => panic!("unexpected node {:?}", other),
    }
}

#[test]
fn handles_are_distinct_and_survive_growth() {
    let mut pool: Pool<u64> = Pool::new();
    let mut ids = Vec::new();
    for i in 0..5000u64 {
        ids.push(pool.allocate(i * 3).unwrap());
    }
    assert_eq!(pool.len(), 5000);
    for (k, id) in ids.iter().enumerate() {
        assert_eq!(id.index as usize, k);
        assert_eq!(*pool.get(*id), k as u64 * 3);
    }
    assert_eq!(*pool.get(ids[0]), 0);
}

#[test]
fn allocate_run_is_contiguous() {
    let mut pool: Pool<u32> = Pool::new();
    pool.allocate(9).unwrap();
    let run = pool.allocate_run(vec![1, 2, 3]).unwrap();
    assert_eq!(run.first, 1);
    assert_eq!(run.len, 3);
    let id = pool.run_id(run, 2);
    assert_eq!(id.index, 3);
    assert_eq!(*pool.get(id), 3);
    let empty = pool.allocate_run(Vec::new()).unwrap();
    assert_eq!(empty.first, 4);
    assert_eq!(empty.len, 0);
}

#[test]
fn set_changes_one_slot() {
    let mut pool: Pool<u32> = Pool::new();
    let a = pool.allocate(1).unwrap();
    let b = pool.allocate(2).unwrap();
    pool.set(a, 10);
    assert_eq!(*pool.get(a), 10);
    assert_eq!(*pool.get(b), 2);
}

#[test]
fn interned_strings_keep_their_bytes() {
    let mut pool: Pool<u8> = Pool::new();
    let a = pool.intern_string("hello").unwrap();
    let b = pool.intern_string("").unwrap();
    let c = pool.intern_string("world!").unwrap();
    assert_eq!((a.offset, a.len), (0, 5));
    assert_eq!((b.offset, b.len), (5, 0));
    assert_eq!((c.offset, c.len), (5, 6));
    assert_eq!(pool.get_str(a), b"hello");
    assert_eq!(pool.get_str(b), b"");
    assert_eq!(pool.get_str(c), b"world!");
}

#[test]
fn shallow_clone_of_run_aliases() {
    let mut pool: Pool<(Pattern2, Variable)> = Pool::new();
    let args = pool
        .allocate_run(vec![(Pattern2 { node: 1 }, Variable { id: 2 }), (Pattern2 { node: 3 }, Variable { id: 4 })])
        .unwrap();
    let def = FunctionDef::NoAnnotation {
        name: Symbol { module: 1, ident: 5 },
        arguments: args,
        return_var: Variable { id: 9 },
    };
    let dup = def.shallow_clone();
    let (orig_args, dup_args) = match (&def, &dup) {
        (
            FunctionDef::NoAnnotation { name: n1, arguments: a1, return_var: r1 },
            FunctionDef::NoAnnotation { name: n2, arguments: a2, return_var: r2 },
        ) => {
            assert_eq!(n1, n2);
            assert_eq!(r1, r2);
            (*a1, *a2)
        }
        _ => panic!("shallow clone changed the form of the definition"),
    };
    assert_eq!((orig_args.first, orig_args.len), (dup_args.first, dup_args.len));
    let first = pool.run_id(orig_args, 0);
    pool.set(first, (Pattern2 { node: 42 }, Variable { id: 43 }));
    let seen = pool.get(pool.run_id(dup_args, 0));
    assert_eq!(*seen, (Pattern2 { node: 42 }, Variable { id: 43 }));
}

#[test]
fn shallow_clone_of_annotated_definition() {
    let def = FunctionDef::WithAnnotation {
        name: Symbol { module: 2, ident: 3 },
        arguments: PoolVec::<(Pattern2, Type2)>::empty(),
        rigids: NodeId::<Rigids>::new(4),
        return_type: NodeId::<Type2>::new(5),
    };
    match def.shallow_clone() {
        FunctionDef::WithAnnotation { name, arguments, rigids, return_type } => {
            assert_eq!(name, Symbol { module: 2, ident: 3 });
            assert_eq!((arguments.first, arguments.len), (0, 0));
            assert_eq!(rigids.index, 4);
            assert_eq!(return_type.index, 5);
        }
        _ => panic!("shallow clone changed the form of the definition"),
    }
}

#[test]
fn shallow_clone_of_value_definition() {
    let rigids = Rigids { named: PoolVec::empty(), unnamed: PoolVec::empty() };
    let def = ValueDef {
        pattern: NodeId::new(6),
        expr_type: Some((NodeId::new(7), rigids)),
        expr_var: Variable { id: 8 },
    };
    let dup = def.shallow_clone();
    assert_eq!(dup.pattern.index, 6);
    assert_eq!(dup.expr_var, Variable { id: 8 });
    let (ty, r) = dup.expr_type.unwrap();
    assert_eq!(ty.index, 7);
    assert_eq!((r.named.first, r.named.len, r.unnamed.first, r.unnamed.len), (0, 0, 0, 0));
    let plain = ValueDef { pattern: NodeId::new(1), expr_type: None, expr_var: Variable { id: 2 } };
    assert!(plain.shallow_clone().expr_type.is_none());
}

#[test]
fn small_string_node() {
    let mut pool: Pool<Expr2> = Pool::new();
    let id = pool.allocate(Expr2::SmallStr(SmallStr::from_str("short").unwrap())).unwrap();
    match pool.get(id) {
        Expr2::SmallStr(s) => assert_eq!(s.as_bytes(), b"short"),
        other => panic!("unexpected node {:?}", other),
    }
}

#[test]
fn duplicate_run_copies_values() {
    let mut pool: Pool<u32> = Pool::new();
    let run = pool.allocate_run(vec![5, 6, 7]).unwrap();
    let dup = pool.duplicate_run(run).unwrap();
    assert_eq!((dup.first, dup.len), (3, 3));
    pool.set(pool.run_id(run, 0), 50);
    assert_eq!(*pool.get(pool.run_id(dup, 0)), 5);
    assert_eq!(*pool.get(pool.run_id(dup, 2)), 7);
}

#[test]
fn style_from_base() {
    assert_eq!(IntStyle::from_base(Base::Decimal), IntStyle::Decimal);
    assert_eq!(IntStyle::from_base(Base::Octal), IntStyle::Octal);
    assert_eq!(IntStyle::from_base(Base::Hex), IntStyle::Hex);
    assert_eq!(IntStyle::from_base(Base::Binary), IntStyle::Binary);
}

#[test]
fn small_str_limits() {
    let s = SmallStr::from_str("hello").unwrap();
    assert_eq!(s.as_bytes(), b"hello");
    let thirty = "abcdefghijklmnopqrstuvwxyz0123";
    assert_eq!(SmallStr::from_str(thirty).unwrap().as_bytes(), thirty.as_bytes());
    assert!(SmallStr::from_str("abcdefghijklmnopqrstuvwxyz01234").is_none());
    assert_eq!(SmallStr::from_str("").unwrap().as_bytes(), b"");
    assert_eq!(thirty.len(), SMALL_STR_BYTES);
    assert_eq!(std::mem::size_of::<SmallStr>(), SMALL_STR_BYTES + 1);
}
