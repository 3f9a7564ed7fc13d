//! The declaration model of an object: constructors, methods, and the
//! lifecycle entry points.
//!
//! A struct-backed object surfaces as a wrapper class holding one opaque
//! pointer, with a finalizer registration named after the class, the native
//! free and clone entry points fixed by the interface, and one call model
//! per constructor and method; every instance method call passes a cloned
//! pointer as its receiver.  A callback-trait object instead surfaces
//! through the reverse-direction dispatch and the handle table.

use vstd::prelude::*;
use vstd::string::StringExecFns;
use crate::gen::functions::generate_function;
use crate::gen::functions::method_gen_matches;
use crate::gen::functions::MethodGen;
use crate::interface::FnDesc;
use crate::interface::ObjectDesc;
use crate::interface::ObjectImplKind;
use crate::naming::class_name;
use crate::naming::upper_camel_of;

verus! {

/// The declaration model of one object.
#[derive(Debug)]
pub struct ObjectGen {
    pub class_name: String,
    pub finalizer_name: String,
    pub ffi_free_name: String,
    pub ffi_clone_name: String,
    pub is_callback: bool,
    pub constructors: Vec<MethodGen>,
    pub methods: Vec<MethodGen>,
}

/// Whether an object model speaks for an object declaration within a
/// namespace.
pub open spec fn object_gen_matches(g: ObjectGen, d: ObjectDesc, ns: Seq<char>) -> bool {
    &&& g.class_name@ == upper_camel_of(d.name@)
    &&& g.finalizer_name@ == upper_camel_of(d.name@) + "Finalizer"@
    &&& g.ffi_free_name@ == d.ffi_free_name@
    &&& g.ffi_clone_name@ == d.ffi_clone_name@
    &&& g.is_callback == (d.imp == ObjectImplKind::CallbackTrait)
    &&& g.constructors@.len() == d.constructors@.len()
    &&& forall|i: int|
        0 <= i < g.constructors@.len() ==> method_gen_matches(
            #[trigger] g.constructors@[i],
            d.constructors@[i],
            ns,
        )
    &&& g.methods@.len() == d.methods@.len()
    &&& forall|i: int|
        0 <= i < g.methods@.len() ==> method_gen_matches(#[trigger] g.methods@[i], d.methods@[i], ns)
}

/// The call model of one method; the emitted call passes the cloned
/// receiver pointer before these argument slots.
pub fn generate_method(d: &FnDesc, ns: &str) -> (r: MethodGen)
    ensures
        method_gen_matches(r, *d, ns@),
{
    generate_function(d, ns)
}

/// The declaration model of one object.
#[verifier::loop_isolation(false)]
pub fn generate_object(d: &ObjectDesc, ns: &str) -> (r: ObjectGen)
    ensures
        object_gen_matches(r, *d, ns@),
{
    let cls = class_name(d.name.as_str());
    let mut finalizer = class_name(d.name.as_str());
    finalizer.append("Finalizer");
    let mut constructors: Vec<MethodGen> = Vec::new();
    let mut i: usize = 0;
    while i < d.constructors.len()
        invariant
            i <= d.constructors@.len(),
            constructors@.len() == i,
            forall|k: int|
                0 <= k < i ==> method_gen_matches(
                    #[trigger] constructors@[k],
                    d.constructors@[k],
                    ns@,
                ),
        decreases d.constructors@.len() - i,
    {
        constructors.push(generate_method(&d.constructors[i], ns));
        i = i + 1;
    }
    let mut methods: Vec<MethodGen> = Vec::new();
    let mut j: usize = 0;
    while j < d.methods.len()
        invariant
            j <= d.methods@.len(),
            methods@.len() == j,
            forall|k: int|
                0 <= k < j ==> method_gen_matches(#[trigger] methods@[k], d.methods@[k], ns@),
        decreases d.methods@.len() - j,
    {
        methods.push(generate_method(&d.methods[j], ns));
        j = j + 1;
    }
    ObjectGen {
        class_name: cls,
        finalizer_name: finalizer,
        ffi_free_name: d.ffi_free_name.clone(),
        ffi_clone_name: d.ffi_clone_name.clone(),
        is_callback: d.imp == ObjectImplKind::CallbackTrait,
        constructors,
        methods,
    }
}

} // verus!
