//! Canonical identity for every type, and the include-once registry.
//!
//! Every type resolves to exactly one codec identity, computed from the
//! type's structure alone, so structurally equal types always share one
//! generated converter.  The registry records which canonical names have
//! already been emitted during a generation run; it is an explicit value
//! passed through the run, never ambient state.

use vstd::prelude::*;
use vstd::string::StringExecFns;
use crate::interface::ObjectImplKind;
use crate::interface::TypeDesc;
use crate::naming::class_name;
use crate::naming::upper_camel_of;

verus! {

/// The canonical name of a type: the unique key under which its codec is
/// emitted once.
pub open spec fn canonical_name_of(t: TypeDesc) -> Seq<char>
    decreases t,
{
    match t {
        TypeDesc::Boolean => "Bool"@,
        TypeDesc::Int8 => "Int8"@,
        TypeDesc::Int16 => "Int16"@,
        TypeDesc::Int32 => "Int32"@,
        TypeDesc::Int64 => "Int64"@,
        TypeDesc::UInt8 => "UInt8"@,
        TypeDesc::UInt16 => "UInt16"@,
        TypeDesc::UInt32 => "UInt32"@,
        TypeDesc::UInt64 => "UInt64"@,
        TypeDesc::Float32 => "Double32"@,
        TypeDesc::Float64 => "Double64"@,
        TypeDesc::Str => "String"@,
        TypeDesc::Bytes => "Uint8List"@,
        TypeDesc::Duration => "Duration"@,
        TypeDesc::Optional { inner } => "Optional"@ + canonical_name_of(*inner),
        TypeDesc::Sequence { inner } => "Sequence"@ + canonical_name_of(*inner),
        TypeDesc::MapOf { key, value } => "Map"@ + canonical_name_of(*key) + canonical_name_of(
            *value,
        ),
        TypeDesc::Record { name, fields } => name@,
        TypeDesc::Enum { name, variants, flat } => name@,
        TypeDesc::Object { name, imp } => name@,
        TypeDesc::Custom { name, underlying } => name@,
    }
}

/// The host-language type a value of this type surfaces as.
pub open spec fn type_label_of(t: TypeDesc) -> Seq<char>
    decreases t,
{
    match t {
        TypeDesc::Boolean => "bool"@,
        TypeDesc::Int8 => "int"@,
        TypeDesc::Int16 => "int"@,
        TypeDesc::Int32 => "int"@,
        TypeDesc::Int64 => "BigInt"@,
        TypeDesc::UInt8 => "int"@,
        TypeDesc::UInt16 => "int"@,
        TypeDesc::UInt32 => "int"@,
        TypeDesc::UInt64 => "BigInt"@,
        TypeDesc::Float32 => "double"@,
        TypeDesc::Float64 => "double"@,
        TypeDesc::Str => "String"@,
        TypeDesc::Bytes => "Uint8List"@,
        TypeDesc::Duration => "Duration"@,
        TypeDesc::Optional { inner } => type_label_of(*inner) + "?"@,
        TypeDesc::Sequence { inner } => "List<"@ + type_label_of(*inner) + ">"@,
        TypeDesc::MapOf { key, value } => "Map<"@ + type_label_of(*key) + ", "@ + type_label_of(
            *value,
        ) + ">"@,
        TypeDesc::Record { name, fields } => upper_camel_of(name@),
        TypeDesc::Enum { name, variants, flat } => upper_camel_of(name@),
        TypeDesc::Object { name, imp } => upper_camel_of(name@),
        TypeDesc::Custom { name, underlying } => upper_camel_of(name@),
    }
}

/// The name of the generated converter for this type.  Struct-backed
/// objects convert through their own class's factory methods; callback
/// objects through a dedicated callback-interface converter; enums surface
/// their class name inside the converter name; everything else keys the
/// converter by canonical name.
pub open spec fn converter_name_of(t: TypeDesc) -> Seq<char> {
    match t {
        TypeDesc::Enum { name, variants, flat } => "FfiConverter"@ + upper_camel_of(name@),
        TypeDesc::Object { name, imp } => if imp == ObjectImplKind::Struct {
            name@
        } else {
            "FfiConverterCallbackInterface"@ + name@
        },
        _ => "FfiConverter"@ + canonical_name_of(t),
    }
}

/// The canonical identity of one type: its surface label, its canonical
/// name, and the name of its converter.
#[derive(Debug)]
pub struct CodecIdentity {
    pub type_label: String,
    pub canonical_name: String,
    pub converter_name: String,
}

/// The canonical name of a type, as text.
pub fn canonical_name(t: &TypeDesc) -> (r: String)
    ensures
        r@ == canonical_name_of(*t),
    decreases *t,
{
    match t {
        TypeDesc::Boolean => String::from_str("Bool"),
        TypeDesc::Int8 => String::from_str("Int8"),
        TypeDesc::Int16 => String::from_str("Int16"),
        TypeDesc::Int32 => String::from_str("Int32"),
        TypeDesc::Int64 => String::from_str("Int64"),
        TypeDesc::UInt8 => String::from_str("UInt8"),
        TypeDesc::UInt16 => String::from_str("UInt16"),
        TypeDesc::UInt32 => String::from_str("UInt32"),
        TypeDesc::UInt64 => String::from_str("UInt64"),
        TypeDesc::Float32 => String::from_str("Double32"),
        TypeDesc::Float64 => String::from_str("Double64"),
        TypeDesc::Str => String::from_str("String"),
        TypeDesc::Bytes => String::from_str("Uint8List"),
        TypeDesc::Duration => String::from_str("Duration"),
        TypeDesc::Optional { inner } => {
            let mut s = String::from_str("Optional");
            let i = canonical_name(inner);
            s.append(i.as_str());
            s
        },
        TypeDesc::Sequence { inner } => {
            let mut s = String::from_str("Sequence");
            let i = canonical_name(inner);
            s.append(i.as_str());
            s
        },
        TypeDesc::MapOf { key, value } => {
            let mut s = String::from_str("Map");
            let k = canonical_name(key);
            s.append(k.as_str());
            let v = canonical_name(value);
            s.append(v.as_str());
            s
        },
        TypeDesc::Record { name, fields } => name.clone(),
        TypeDesc::Enum { name, variants, flat } => name.clone(),
        TypeDesc::Object { name, imp } => name.clone(),
        TypeDesc::Custom { name, underlying } => name.clone(),
    }
}

/// The surface type label of a type, as text.
pub fn type_label(t: &TypeDesc) -> (r: String)
    ensures
        r@ == type_label_of(*t),
    decreases *t,
{
    match t {
        TypeDesc::Boolean => String::from_str("bool"),
        TypeDesc::Int8 => String::from_str("int"),
        TypeDesc::Int16 => String::from_str("int"),
        TypeDesc::Int32 => String::from_str("int"),
        TypeDesc::Int64 => String::from_str("BigInt"),
        TypeDesc::UInt8 => String::from_str("int"),
        TypeDesc::UInt16 => String::from_str("int"),
        TypeDesc::UInt32 => String::from_str("int"),
        TypeDesc::UInt64 => String::from_str("BigInt"),
        TypeDesc::Float32 => String::from_str("double"),
        TypeDesc::Float64 => String::from_str("double"),
        TypeDesc::Str => String::from_str("String"),
        TypeDesc::Bytes => String::from_str("Uint8List"),
        TypeDesc::Duration => String::from_str("Duration"),
        TypeDesc::Optional { inner } => {
            let mut s = type_label(inner);
            s.append("?");
            s
        },
        TypeDesc::Sequence { inner } => {
            let mut s = String::from_str("List<");
            let i = type_label(inner);
            s.append(i.as_str());
            s.append(">");
            s
        },
        TypeDesc::MapOf { key, value } => {
            let mut s = String::from_str("Map<");
            let k = type_label(key);
            s.append(k.as_str());
            s.append(", ");
            let v = type_label(value);
            s.append(v.as_str());
            s.append(">");
            s
        },
        TypeDesc::Record { name, fields } => class_name(name.as_str()),
        TypeDesc::Enum { name, variants, flat } => class_name(name.as_str()),
        TypeDesc::Object { name, imp } => class_name(name.as_str()),
        TypeDesc::Custom { name, underlying } => class_name(name.as_str()),
    }
}

/// The converter name of a type, as text.
pub fn converter_name(t: &TypeDesc) -> (r: String)
    ensures
        r@ == converter_name_of(*t),
{
    match t {
        TypeDesc::Enum { name, variants, flat } => {
            let mut s = String::from_str("FfiConverter");
            let c = class_name(name.as_str());
            s.append(c.as_str());
            s
        },
        TypeDesc::Object { name, imp } => {
            if *imp == ObjectImplKind::Struct {
                name.clone()
            } else {
                let mut s = String::from_str("FfiConverterCallbackInterface");
                s.append(name.as_str());
                s
            }
        },
        _ => {
            let mut s = String::from_str("FfiConverter");
            let c = canonical_name(t);
            s.append(c.as_str());
            s
        },
    }
}

/// Resolve a type to its codec identity.  The identity is computed from the
/// type's structure alone: two structurally equal types resolve alike.
pub fn resolve(t: &TypeDesc) -> (r: CodecIdentity)
    ensures
        r.type_label@ == type_label_of(*t),
        r.canonical_name@ == canonical_name_of(*t),
        r.converter_name@ == converter_name_of(*t),
{
    CodecIdentity {
        type_label: type_label(t),
        canonical_name: canonical_name(t),
        converter_name: converter_name(t),
    }
}

/// The record of which canonical names were already emitted during one
/// generation run.
#[derive(Debug)]
pub struct TypeRegistry {
    names: Vec<String>,
}

impl TypeRegistry {
    /// Whether a canonical name was already recorded.
    pub closed spec fn recorded(&self, s: Seq<char>) -> bool {
        exists|i: int| 0 <= i < self.names@.len() && self.names@[i]@ == s
    }

    /// An empty registry: nothing recorded yet.
    pub fn new() -> (r: Self)
        ensures
            forall|s: Seq<char>| !r.recorded(s),
    {
        TypeRegistry { names: Vec::new() }
    }

    /// Whether a canonical name was already recorded.
    #[verifier::loop_isolation(false)]
    pub fn check(&self, name: &str) -> (r: bool)
        ensures
            r == self.recorded(name@),
    {
        let key = String::from_str(name);
        let n = self.names.len();
        let mut i: usize = 0;
        while i < n
            invariant
                i <= n,
                key@ == name@,
                forall|j: int| 0 <= j < i ==> self.names@[j]@ != name@,
            decreases n - i,
        {
            if self.names[i].eq(&key) {
                return true;
            }
            i = i + 1;
        }
        false
    }

    /// Record a canonical name; true when it was already present, in which
    /// case the caller skips re-emission.  Only this one name's membership
    /// changes.
    pub fn include_once_check(&mut self, name: &str) -> (found: bool)
        ensures
            found == old(self).recorded(name@),
            final(self).recorded(name@),
            forall|s: Seq<char>|
                #[trigger] final(self).recorded(s) == (old(self).recorded(s) || s == name@),
    {
        let found = self.check(name);
        if !found {
            let ghost before = self.names@;
            self.names.push(String::from_str(name));
            proof {
                assert forall|s: Seq<char>| #[trigger] self.recorded(s) implies (exists|i: int|
                    0 <= i < before.len() && before[i]@ == s) || s == name@ by {
                    let i = choose|i: int| 0 <= i < self.names@.len() && self.names@[i]@ == s;
                    if i < before.len() {
                        assert(before[i]@ == s);
                    }
                };
                assert forall|s: Seq<char>|
                    (exists|i: int| 0 <= i < before.len() && before[i]@ == s) || s == name@
                        implies #[trigger] self.recorded(s) by {
                    if s == name@ {
                        assert(self.names@[before.len() as int]@ == s);
                    } else {
                        let i = choose|i: int| 0 <= i < before.len() && before[i]@ == s;
                        assert(self.names@[i]@ == s);
                    }
                };
            }
        }
        found
    }

    /// Record a canonical name; true when it was newly registered, so the
    /// caller emits the codec exactly once per unique type.
    pub fn register_once(&mut self, name: &str) -> (fresh: bool)
        ensures
            fresh == !old(self).recorded(name@),
            final(self).recorded(name@),
            forall|s: Seq<char>|
                #[trigger] final(self).recorded(s) == (old(self).recorded(s) || s == name@),
    {
        let found = self.include_once_check(name);
        !found
    }

    /// The names recorded so far, in first-recording order: exactly the
    /// recorded set.
    pub fn get_include_names(&self) -> (r: &Vec<String>)
        ensures
            forall|i: int| 0 <= i < r@.len() ==> self.recorded(#[trigger] r@[i]@),
            forall|s: Seq<char>|
                #[trigger] self.recorded(s) ==> exists|i: int|
                    0 <= i < r@.len() && r@[i]@ == s,
    {
        &self.names
    }
}

} // verus!
