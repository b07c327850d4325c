use rust_knowledge::rustdoc::render::{render_function, render_type};
use rust_knowledge::rustdoc::types::{
    Abi, Function, FunctionHeader, FunctionSignature, Generics, Path, Type,
};

fn function(inputs: Vec<(&str, Type)>, output: Option<Type>) -> Function {
    Function {
        sig: FunctionSignature {
            inputs: inputs.into_iter().map(|(n, t)| (n.to_string(), t)).collect(),
            output,
            is_c_variadic: false,
        },
        generics: Generics { params: vec![] },
        header: FunctionHeader { is_const: false, is_unsafe: false, is_async: false, abi: Abi::Rust },
    }
}

#[test]
fn renders_simple_function() {
    let f = function(
        vec![
            ("self", Type::Generic("Self".into())),
            (
                "data",
                Type::BorrowedRef {
                    lifetime: None,
                    is_mutable: false,
                    type_: Box::new(Type::Slice(Box::new(Type::Primitive("u8".into())))),
                },
            ),
        ],
        Some(Type::Primitive("usize".into())),
    );
    assert_eq!(
        render_function("write_all", &f, true),
        "pub fn write_all(self: Self, data: &[u8]) -> usize"
    );
}

#[test]
fn renders_borrowed_ref_and_option() {
    let ref_type = Type::BorrowedRef {
        lifetime: Some("a".into()),
        is_mutable: true,
        type_: Box::new(Type::Primitive("i32".into())),
    };
    let f = function(vec![("x", ref_type)], None);
    assert_eq!(render_function("borrow_mut", &f, true), "pub fn borrow_mut(x: &'a mut i32)");
}

#[test]
fn renders_async_function() {
    let mut f = function(vec![], None);
    f.header.is_async = true;
    assert_eq!(render_function("run", &f, true), "pub async fn run()");
}

#[test]
fn renders_private_unsafe_extern_function() {
    let mut f = function(vec![("n", Type::Primitive("u32".into()))], None);
    f.header.is_unsafe = true;
    f.header.abi = Abi::C { unwind: false };
    assert_eq!(render_function("raw", &f, false), "unsafe extern C fn raw(n: u32)");
}

#[test]
fn renders_tuples_arrays_and_paths() {
    let t = Type::Tuple(vec![
        Type::Array { type_: Box::new(Type::Primitive("u8".into())), len: "4".into() },
        Type::ResolvedPath(Path { path: "std::string::String".into(), id: 7, args: None }),
        Type::Infer,
    ]);
    assert_eq!(render_type(&t), "([u8; 4], std::string::String, _)");
}
