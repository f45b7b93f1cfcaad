//! JNI type descriptors.
//!
//! A JNI call names field and method types by descriptor strings: `J` for
//! `long`, `F` for `float`, `L<class>;` for an object of the given class, and
//! `(<params>)<ret>` for a method signature.

use vstd::prelude::*;
use vstd::string::StringExecFns;

verus! {

/// The descriptor of an object type: the class path wrapped as `L<class>;`.
pub open spec fn object_descriptor(class: Seq<char>) -> Seq<char> {
    seq!['L'] + class + seq![';']
}

/// Wraps a class path in the JNI object-descriptor form `L<class>;`.
pub fn as_descriptor(class: &str) -> (r: String)
    ensures
        r@ == object_descriptor(class@),
{
    let mut r = String::from_str("L");
    r.append(class);
    r.append(";");
    proof {
        reveal_strlit("L");
        reveal_strlit(";");
        assert(r@ =~= object_descriptor(class@));
    }
    r
}

/// A JNI parameter or field type, as far as the bridge uses them: Java's
/// `long` and `float` primitives and object references.
pub enum JavaType {
    Long,
    Float,
    Object(String),
}

/// A JNI method return type: `void` or a value type.
pub enum ReturnType {
    Void,
    Value(JavaType),
}

/// The descriptor of a single parameter or field type.
pub open spec fn type_descriptor(t: JavaType) -> Seq<char> {
    match t {
        JavaType::Long => seq!['J'],
        JavaType::Float => seq!['F'],
        JavaType::Object(class) => object_descriptor(class@),
    }
}

/// The descriptors of a parameter list, in order, run together.
pub open spec fn params_descriptor(ts: Seq<JavaType>) -> Seq<char>
    decreases ts.len(),
{
    if ts.len() == 0 {
        Seq::empty()
    } else {
        params_descriptor(ts.drop_last()) + type_descriptor(ts.last())
    }
}

/// The descriptor of a return type: `V` for `void`.
pub open spec fn return_descriptor(t: ReturnType) -> Seq<char> {
    match t {
        ReturnType::Void => seq!['V'],
        ReturnType::Value(v) => type_descriptor(v),
    }
}

/// The descriptor of a whole method signature: `(<params>)<ret>`.
pub open spec fn signature_descriptor(params: Seq<JavaType>, ret: ReturnType) -> Seq<char> {
    seq!['('] + params_descriptor(params) + seq![')'] + return_descriptor(ret)
}

/// Appends one type descriptor to a string under construction.
fn push_type_descriptor(out: &mut String, t: &JavaType)
    ensures
        final(out)@ == old(out)@ + type_descriptor(*t),
{
    match t {
        JavaType::Long => {
            out.append("J");
            proof {
                reveal_strlit("J");
                assert(out@ =~= old(out)@ + type_descriptor(*t));
            }
        },
        JavaType::Float => {
            out.append("F");
            proof {
                reveal_strlit("F");
                assert(out@ =~= old(out)@ + type_descriptor(*t));
            }
        },
        JavaType::Object(class) => {
            out.append("L");
            out.append(class.as_str());
            out.append(";");
            proof {
                reveal_strlit("L");
                reveal_strlit(";");
                assert(out@ =~= old(out)@ + type_descriptor(*t));
            }
        },
    }
}

/// Builds the JNI descriptor string of a method signature, as it is handed to
/// a method-lookup or call through the JNI environment.
pub fn method_descriptor(params: &Vec<JavaType>, ret: &ReturnType) -> (r: String)
    ensures
        r@ == signature_descriptor(params@, *ret),
{
    let mut r = String::from_str("(");
    proof {
        reveal_strlit("(");
        assert(params@.take(0) =~= Seq::<JavaType>::empty());
        assert(r@ =~= seq!['('] + params_descriptor(params@.take(0)));
    }
    let mut i: usize = 0;
    while i < params.len()
        invariant
            i <= params.len(),
            r@ == seq!['('] + params_descriptor(params@.take(i as int)),
        decreases params.len() - i,
    {
        push_type_descriptor(&mut r, &params[i]);
        proof {
            assert(params@.take(i + 1).drop_last() =~= params@.take(i as int));
            assert(params@.take(i + 1).last() == params@[i as int]);
        }
        i = i + 1;
    }
    proof {
        assert(params@.take(params@.len() as int) =~= params@);
    }
    r.append(")");
    match ret {
        ReturnType::Void => {
            r.append("V");
            proof {
                reveal_strlit(")");
                reveal_strlit("V");
                assert(r@ =~= signature_descriptor(params@, *ret));
            }
        },
        ReturnType::Value(v) => {
            push_type_descriptor(&mut r, v);
            proof {
                reveal_strlit(")");
                assert(r@ =~= signature_descriptor(params@, *ret));
            }
        },
    }
    r
}

} // verus!
