//! The trampoline builder: composes the classifier, the signature encoder
//! and the marshalling synthesizer into the text of one generated native
//! entry point per bound function, together with its signature constant.

use vstd::prelude::*;

verus! {

use crate::types::BindgenError;
use crate::types::NativeType;
use crate::types::WAMRTypes;
use crate::types::binding_type_text;
use crate::types::call_cast_text;
use crate::types::classify_spec;
use crate::types::type_text;
use crate::cast::cast_text;
use crate::cast::lemma_classified_compatible;
use crate::encoder::encode_signature;
use crate::encoder::encoded_signature;
use crate::strutil::upper_text;
use crate::strutil::ascii_upper;
use vstd::string::StringExecFns;

/// One parameter of a bound function, as declared: either the receiver of a
/// method, or a named, typed parameter.
#[derive(Debug)]
pub enum FnArg {
    Receiver,
    Typed { identifier: String, ty: NativeType },
}

/// A classified parameter: its name, its native type, and the ABI category
/// the type classified into.
#[derive(Debug)]
pub struct BindingArgument {
    pub identifier: String,
    pub native_type: NativeType,
    pub category: WAMRTypes,
}

impl BindingArgument {
    /// The stored category is the one the stored type classifies into.
    pub open spec fn wf(&self) -> bool {
        classify_spec(self.native_type) == Some(self.category)
    }
}

/// A bound function with every parameter and the return value classified,
/// ready for code generation.
#[derive(Debug)]
pub struct BindingFunction {
    identifier: String,
    arguments: Vec<BindingArgument>,
    return_value: Option<(NativeType, WAMRTypes)>,
    structure: Option<String>,
}

/// How one classified argument relates to the parameter it was built from:
/// a typed parameter keeps its name and type and gains its category; a
/// receiver becomes a mutable reference to the owning type, named `__self`,
/// of the guest-pointer category.
pub open spec fn binds_arg(ba: BindingArgument, a: FnArg, structure: Option<String>) -> bool {
    match a {
        FnArg::Typed { identifier, ty } => {
            &&& ba.identifier@ == identifier@
            &&& ba.native_type == ty
            &&& classify_spec(ty) == Some(ba.category)
        },
        FnArg::Receiver => {
            &&& structure matches Some(s) && (ba.native_type matches NativeType::Reference {
                mutable,
                elem,
            } && mutable && elem@ == s@)
            &&& ba.identifier@ == "__self"@
            &&& ba.category == WAMRTypes::Pointer
        },
    }
}

/// Whether one declared parameter can be classified: a typed parameter needs
/// a supported type, a receiver needs an owning type.
pub open spec fn arg_bindable(a: FnArg, has_structure: bool) -> bool {
    match a {
        FnArg::Typed { identifier, ty } => classify_spec(ty) is Some,
        FnArg::Receiver => has_structure,
    }
}

/// Whether a whole declared signature can be classified.  A text value is
/// not supported as a wire-return value: a return type of the string
/// category is refused at generation time, never generated degraded.
pub open spec fn signature_bindable(
    args: Seq<FnArg>,
    ret: Option<NativeType>,
    has_structure: bool,
) -> bool {
    &&& forall|i: int| 0 <= i < args.len() ==> arg_bindable(#[trigger] args[i], has_structure)
    &&& match ret {
        Some(t) => classify_spec(t) is Some && classify_spec(t) != Some(WAMRTypes::String),
        None => true,
    }
}

/// What a classification error reports: an unsupported type that does occur
/// in the signature — among the parameters, or as a return type that no
/// category covers or that only the string category covers — or a receiver
/// on a function with no owning type.
pub open spec fn bind_error_witness(
    e: BindgenError,
    args: Seq<FnArg>,
    ret: Option<NativeType>,
    has_structure: bool,
) -> bool {
    match e {
        BindgenError::UnsupportedType(n) => {
            ||| exists|i: int|
                0 <= i < args.len() && (#[trigger] args[i] matches FnArg::Typed { ty, .. }
                    && classify_spec(ty) is None && n@ == type_text(ty))
            ||| (ret matches Some(t) && (classify_spec(t) is None || classify_spec(t) == Some(
                WAMRTypes::String,
            )) && n@ == type_text(t))
        },
        BindgenError::MissingOwningType => !has_structure && exists|i: int|
            0 <= i < args.len() && #[trigger] args[i] is Receiver,
        BindgenError::InvalidSignatureOverride => false,
    }
}

/// The fields a successful construction establishes.
pub open spec fn built_from(
    bf: BindingFunction,
    identifier: Seq<char>,
    args: Seq<FnArg>,
    ret: Option<NativeType>,
) -> bool {
    &&& bf.spec_identifier() == identifier
    &&& bf.spec_arguments().len() == args.len()
    &&& forall|i: int|
        0 <= i < args.len() ==> binds_arg(
            #[trigger] bf.spec_arguments()[i],
            args[i],
            bf.spec_structure(),
        )
    &&& match (ret, bf.spec_return_value()) {
        (Some(t), Some((ty, cat))) => ty == t && classify_spec(t) == Some(cat),
        (None, None) => true,
        _ => false,
    }
}

impl BindingFunction {
    /// Every stored argument and the stored return value carry the category
    /// their type classifies into, and the return value is never of the
    /// string category: a string crosses the boundary only as a parameter.
    pub open spec fn wf(&self) -> bool {
        &&& forall|i: int|
            0 <= i < self.spec_arguments().len() ==> (#[trigger] self.spec_arguments()[i]).wf()
        &&& match self.spec_return_value() {
            Some((ty, cat)) => classify_spec(ty) == Some(cat) && cat != WAMRTypes::String,
            None => true,
        }
    }

    pub closed spec fn spec_identifier(&self) -> Seq<char> {
        self.identifier@
    }

    pub closed spec fn spec_arguments(&self) -> Seq<BindingArgument> {
        self.arguments@
    }

    pub closed spec fn spec_return_value(&self) -> Option<(NativeType, WAMRTypes)> {
        self.return_value
    }

    pub closed spec fn spec_structure(&self) -> Option<String> {
        self.structure
    }

    /// Classifies the signature of a free function.  A receiver parameter is
    /// a configuration error here: there is no owning type.
    pub fn new_function(
        identifier: &str,
        arguments: &Vec<FnArg>,
        return_type: &Option<NativeType>,
    ) -> (r: Result<BindingFunction, BindgenError>)
        ensures
            r is Ok <==> signature_bindable(arguments@, *return_type, false),
            r matches Ok(bf) ==> built_from(bf, identifier@, arguments@, *return_type)
                && bf.spec_structure() is None && bf.wf(),
            r matches Err(e) ==> bind_error_witness(e, arguments@, *return_type, false),
    {
        Self::build_function_signature(identifier, arguments, return_type, None)
    }

    /// Classifies the signature of a method of the owning type `structure`.
    /// The receiver, if any, becomes a `__self` parameter of type mutable
    /// reference to the owning type.
    pub fn new_impl_function(
        identifier: &str,
        structure: &str,
        arguments: &Vec<FnArg>,
        return_type: &Option<NativeType>,
    ) -> (r: Result<BindingFunction, BindgenError>)
        ensures
            r is Ok <==> signature_bindable(arguments@, *return_type, true),
            r matches Ok(bf) ==> built_from(bf, identifier@, arguments@, *return_type) && (
            bf.spec_structure() matches Some(s) && s@ == structure@) && bf.wf(),
            r matches Err(e) ==> bind_error_witness(e, arguments@, *return_type, true),
    {
        Self::build_function_signature(
            identifier,
            arguments,
            return_type,
            Some(String::from_str(structure)),
        )
    }

    /// Classifies every parameter in declaration order, then the return
    /// type; the first unclassifiable piece aborts with its error.  A
    /// return type of the string category is refused like an unsupported
    /// one: strings are not supported as wire-return values.
    fn build_function_signature(
        identifier: &str,
        arguments: &Vec<FnArg>,
        return_type: &Option<NativeType>,
        structure: Option<String>,
    ) -> (r: Result<BindingFunction, BindgenError>)
        ensures
            r is Ok <==> signature_bindable(arguments@, *return_type, structure is Some),
            r matches Ok(bf) ==> built_from(bf, identifier@, arguments@, *return_type) && match (
                structure,
                bf.spec_structure(),
            ) {
                (Some(s1), Some(s2)) => s1 == s2,
                (None, None) => true,
                _ => false,
            } && bf.wf(),
            r matches Err(e) ==> bind_error_witness(e, arguments@, *return_type, structure is Some),
    {
        let mut bound: Vec<BindingArgument> = Vec::new();
        let mut idx: usize = 0;
        while idx < arguments.len()
            invariant
                idx <= arguments@.len(),
                bound@.len() == idx,
                forall|i: int|
                    0 <= i < idx ==> binds_arg(#[trigger] bound@[i], arguments@[i], structure),
                forall|i: int|
                    0 <= i < idx ==> arg_bindable(#[trigger] arguments@[i], structure is Some),
            decreases arguments@.len() - idx,
        {
            match &arguments[idx] {
                FnArg::Typed { identifier, ty } => {
                    match WAMRTypes::from(ty) {
                        Ok(category) => {
                            bound.push(
                                BindingArgument {
                                    identifier: identifier.clone(),
                                    native_type: ty.clone(),
                                    category,
                                },
                            );
                        },
                        Err(e) => {
                            return Err(e);
                        },
                    }
                },
                FnArg::Receiver => {
                    match &structure {
                        Some(s) => {
                            bound.push(
                                BindingArgument {
                                    identifier: String::from_str("__self"),
                                    native_type: NativeType::Reference {
                                        mutable: true,
                                        elem: s.clone(),
                                    },
                                    category: WAMRTypes::Pointer,
                                },
                            );
                        },
                        None => {
                            return Err(BindgenError::MissingOwningType);
                        },
                    }
                },
            }
            idx = idx + 1;
        }
        let return_value = match return_type {
            Some(t) => {
                match WAMRTypes::from(t) {
                    Ok(category) => {
                        match category {
                            WAMRTypes::String => {
                                return Err(
                                    BindgenError::UnsupportedType(crate::types::render_type(t)),
                                );
                            },
                            _ => Some((t.clone(), category)),
                        }
                    },
                    Err(e) => {
                        return Err(e);
                    },
                }
            },
            None => None,
        };
        Ok(
            BindingFunction {
                identifier: String::from_str(identifier),
                arguments: bound,
                return_value,
                structure,
            },
        )
    }
}

/// The categories of a classified argument list, in order.
pub open spec fn cats(args: Seq<BindingArgument>) -> Seq<WAMRTypes> {
    args.map_values(|a: BindingArgument| a.category)
}

/// The return category of a bound function, if it returns a value.
pub open spec fn ret_cat(bf: BindingFunction) -> Option<WAMRTypes> {
    match bf.spec_return_value() {
        Some((t, c)) => Some(c),
        None => None,
    }
}

/// The conversion statements of all parameters, in declaration order; each
/// synthesized conversion is followed by one space, and a float parameter
/// (whose wire form already matches its native form) contributes nothing.
pub open spec fn casts_text(args: Seq<BindingArgument>) -> Seq<char>
    decreases args.len(),
{
    if args.len() == 0 {
        Seq::<char>::empty()
    } else {
        casts_text(args.drop_last()) + (match args.last().category {
            WAMRTypes::ShortFloats | WAMRTypes::LongFloats => Seq::<char>::empty(),
            _ => cast_text(
                args.last().category,
                args.last().identifier@,
                args.last().native_type,
            ) + " "@,
        })
    }
}

/// The comma-separated argument names of the generated call.
pub open spec fn call_args_text(args: Seq<BindingArgument>) -> Seq<char>
    decreases args.len(),
{
    if args.len() == 0 {
        Seq::<char>::empty()
    } else if args.len() == 1 {
        args[0].identifier@
    } else {
        call_args_text(args.drop_last()) + " , "@ + args.last().identifier@
    }
}

/// The parameters of a generated entry point after the environment handle:
/// one wire-width parameter per classified argument, in declaration order.
pub open spec fn binding_params_text(args: Seq<BindingArgument>) -> Seq<char>
    decreases args.len(),
{
    if args.len() == 0 {
        Seq::<char>::empty()
    } else {
        binding_params_text(args.drop_last()) + " , "@ + args.last().identifier@ + " : "@
            + binding_type_text(args.last().category)
    }
}

/// The deterministic name of a generated entry point: a fixed prefix, the
/// owning type's name for a method, and the function identifier.  The
/// owning type's name in the prefix keeps methods of different types from
/// colliding on a shared method name.
pub open spec fn binding_function_name_text(bf: BindingFunction) -> Seq<char> {
    match bf.spec_structure() {
        None => "__wamr_bindgen_"@ + bf.spec_identifier(),
        Some(s) => "__wamr_bindgen_"@ + s@ + "_"@ + bf.spec_identifier(),
    }
}

/// The declaration of the paired signature constant, named from the
/// upper-cased function identifier.
pub open spec fn signature_const_text(bf: BindingFunction) -> Seq<char> {
    "const __WAMR_BINDGEN_"@ + upper_text(bf.spec_identifier())
        + "_SIGNATURE : & 'static str = \""@ + encoded_signature(
        cats(bf.spec_arguments()),
        ret_cat(bf),
    ) + "\""@
}

/// The generated call of the real function: plain for a free function,
/// qualified through the owning type for a method, with a returned value
/// cast to its wire type.
pub open spec fn function_call_text(bf: BindingFunction) -> Seq<char> {
    (match bf.spec_structure() {
        Some(s) => s@ + " :: "@,
        None => Seq::<char>::empty(),
    }) + bf.spec_identifier() + " ("@ + call_args_text(bf.spec_arguments()) + ")"@ + (match ret_cat(
        bf,
    ) {
        Some(c) => " as "@ + call_cast_text(c),
        None => Seq::<char>::empty(),
    })
}

/// The whole generated entry point: its externally-callable header, the
/// derivation of the instance from the environment handle, the parameter
/// conversions in declaration order, and the call of the real function.
pub open spec fn binding_function_text(bf: BindingFunction) -> Seq<char> {
    "# [no_mangle] pub unsafe extern \"C\" fn "@ + binding_function_name_text(bf)
        + " (__wamr_environment : wamr_sys :: wasm_exec_env_t"@ + binding_params_text(
        bf.spec_arguments(),
    ) + ")"@ + (match ret_cat(bf) {
        Some(c) => " -> "@ + binding_type_text(c),
        None => Seq::<char>::empty(),
    })
        + " { let __wamr_environment = wamr_rust_sdk :: execution_environment :: ExecutionEnvironment :: from (__wamr_environment) ; let __wamr_instance = __wamr_environment . get_instance () ; "@
        + casts_text(bf.spec_arguments()) + function_call_text(bf) + " }"@
}

impl BindingFunction {
    /// The categories of the classified arguments, in order.
    fn category_vec(&self) -> (v: Vec<WAMRTypes>)
        ensures
            v@ == cats(self.spec_arguments()),
    {
        let mut v: Vec<WAMRTypes> = Vec::new();
        let mut i: usize = 0;
        while i < self.arguments.len()
            invariant
                i <= self.arguments@.len(),
                v@ == cats(self.arguments@.take(i as int)),
            decreases self.arguments@.len() - i,
        {
            v.push(self.arguments[i].category);
            proof {
                assert(v@ =~= cats(self.arguments@.take(i + 1 as int)));
            }
            i = i + 1;
        }
        proof {
            assert(self.arguments@.take(self.arguments@.len() as int) =~= self.arguments@);
        }
        v
    }

    /// The bare concatenation of the parameters' encoding characters.
    pub fn arguments_type_string(&self) -> (r: String)
        ensures
            r@ == encoded_signature(cats(self.spec_arguments()), None),
    {
        let v = self.category_vec();
        encode_signature(&v, &None)
    }

    /// The declaration of the generated signature constant: named from the
    /// upper-cased function identifier, holding the encoded signature, bare
    /// when the function returns nothing and parenthesized with the return
    /// character appended when it does.
    pub fn get_signature_declaration(&self) -> (r: String)
        ensures
            r@ == signature_const_text(*self),
    {
        let v = self.category_vec();
        let ret: Option<WAMRTypes> = match &self.return_value {
            Some((t, c)) => Some(*c),
            None => None,
        };
        let signature = encode_signature(&v, &ret);
        let mut r = String::from_str("const __WAMR_BINDGEN_");
        let upper = ascii_upper(self.identifier.as_str());
        r.append(upper.as_str());
        r.append("_SIGNATURE : & 'static str = \"");
        r.append(signature.as_str());
        r.append("\"");
        proof {
            assert(r@ =~= signature_const_text(*self));
        }
        r
    }

    /// The deterministic name of the generated entry point.
    fn get_binding_function_name(&self) -> (r: String)
        ensures
            r@ == binding_function_name_text(*self),
    {
        let mut r = String::from_str("__wamr_bindgen_");
        match &self.structure {
            Some(s) => {
                r.append(s.as_str());
                r.append("_");
            },
            None => {},
        }
        r.append(self.identifier.as_str());
        proof {
            assert(r@ =~= binding_function_name_text(*self));
        }
        r
    }

    /// The generated call of the real function.
    fn get_function_call(&self) -> (r: String)
        ensures
            r@ == function_call_text(*self),
    {
        let mut r = String::new();
        match &self.structure {
            Some(s) => {
                r.append(s.as_str());
                r.append(" :: ");
            },
            None => {},
        }
        r.append(self.identifier.as_str());
        r.append(" (");
        let ghost prefix: Seq<char> = r@;
        let mut i: usize = 0;
        while i < self.arguments.len()
            invariant
                i <= self.arguments@.len(),
                r@ == prefix + call_args_text(self.arguments@.take(i as int)),
            decreases self.arguments@.len() - i,
        {
            if i > 0 {
                r.append(" , ");
            }
            r.append(self.arguments[i].identifier.as_str());
            proof {
                assert(self.arguments@.take(i + 1 as int).drop_last() =~= self.arguments@.take(
                    i as int,
                ));
                assert(r@ =~= prefix + call_args_text(self.arguments@.take(i + 1 as int)));
            }
            i = i + 1;
        }
        proof {
            assert(self.arguments@.take(self.arguments@.len() as int) =~= self.arguments@);
        }
        r.append(")");
        match &self.return_value {
            Some((t, c)) => {
                r.append(" as ");
                let cc = c.get_return_cast_type();
                r.append(cc.as_str());
            },
            None => {},
        }
        proof {
            assert(r@ =~= function_call_text(*self));
        }
        r
    }

    /// The synthesized conversion statements of every parameter, in
    /// declaration order.
    pub fn get_casts(&self) -> (r: String)
        requires
            self.wf(),
        ensures
            r@ == casts_text(self.spec_arguments()),
    {
        let mut r = String::new();
        let mut i: usize = 0;
        while i < self.arguments.len()
            invariant
                i <= self.arguments@.len(),
                r@ == casts_text(self.arguments@.take(i as int)),
                forall|k: int|
                    0 <= k < self.spec_arguments().len() ==> (#[trigger] self.spec_arguments()[k]).wf(),
            decreases self.arguments@.len() - i,
        {
            let a = &self.arguments[i];
            match a.category {
                WAMRTypes::ShortFloats | WAMRTypes::LongFloats => {},
                _ => {
                    proof {
                        assert(self.spec_arguments()[i as int].wf());
                        lemma_classified_compatible(a.category, a.native_type);
                    }
                    let c = a.category.get_cast(a.identifier.as_str(), &a.native_type);
                    r.append(c.as_str());
                    r.append(" ");
                },
            }
            proof {
                assert(self.arguments@.take(i + 1 as int).drop_last() =~= self.arguments@.take(
                    i as int,
                ));
                assert(r@ =~= casts_text(self.arguments@.take(i + 1 as int)));
            }
            i = i + 1;
        }
        proof {
            assert(self.arguments@.take(self.arguments@.len() as int) =~= self.arguments@);
        }
        r
    }

    /// The whole generated entry point for this bound function.
    pub fn get_binding_function(&self) -> (r: String)
        requires
            self.wf(),
        ensures
            r@ == binding_function_text(*self),
    {
        let mut r = String::from_str("# [no_mangle] pub unsafe extern \"C\" fn ");
        let name = self.get_binding_function_name();
        r.append(name.as_str());
        r.append(" (__wamr_environment : wamr_sys :: wasm_exec_env_t");
        let ghost header: Seq<char> = r@;
        let mut i: usize = 0;
        while i < self.arguments.len()
            invariant
                i <= self.arguments@.len(),
                r@ == header + binding_params_text(self.arguments@.take(i as int)),
            decreases self.arguments@.len() - i,
        {
            let a = &self.arguments[i];
            r.append(" , ");
            r.append(a.identifier.as_str());
            r.append(" : ");
            let bt = a.category.get_binding_type();
            let bts = crate::types::render_type(&bt);
            r.append(bts.as_str());
            proof {
                assert(self.arguments@.take(i + 1 as int).drop_last() =~= self.arguments@.take(
                    i as int,
                ));
                assert(r@ =~= header + binding_params_text(self.arguments@.take(i + 1 as int)));
            }
            i = i + 1;
        }
        proof {
            assert(self.arguments@.take(self.arguments@.len() as int) =~= self.arguments@);
        }
        r.append(")");
        match &self.return_value {
            Some((t, c)) => {
                r.append(" -> ");
                let bt = c.get_binding_type();
                let bts = crate::types::render_type(&bt);
                r.append(bts.as_str());
            },
            None => {},
        }
        r.append(
            " { let __wamr_environment = wamr_rust_sdk :: execution_environment :: ExecutionEnvironment :: from (__wamr_environment) ; let __wamr_instance = __wamr_environment . get_instance () ; ",
        );
        let casts = self.get_casts();
        r.append(casts.as_str());
        let call = self.get_function_call();
        r.append(call.as_str());
        r.append(" }");
        proof {
            assert(r@ =~= binding_function_text(*self));
        }
        r
    }
}

/// A receiver parameter always classifies as a guest pointer and is encoded
/// as `*`, whatever the owning type's name.
pub proof fn lemma_receiver_is_guest_pointer(ba: BindingArgument, structure: Option<String>)
    requires
        binds_arg(ba, FnArg::Receiver, structure),
    ensures
        ba.category == WAMRTypes::Pointer,
        crate::types::sig_char_text(ba.category) == "*"@,
{
}

/// Equal content of two classified arguments: the same identifier text, a
/// type of the same shape, and the same category.
pub open spec fn arg_like(a: BindingArgument, b: BindingArgument) -> bool {
    &&& a.identifier@ == b.identifier@
    &&& crate::types::same_shape(a.native_type, b.native_type)
    &&& a.category == b.category
}

/// Entry-for-entry equal content of two classified argument lists.
pub open spec fn args_like(a: Seq<BindingArgument>, b: Seq<BindingArgument>) -> bool {
    a.len() == b.len() && forall|i: int| 0 <= i < a.len() ==> arg_like(#[trigger] a[i], b[i])
}

/// Equal content of two bound functions: the same identifier and owning
/// type texts, argument lists of equal content, and the same return shape
/// and category.
pub open spec fn bf_like(x: BindingFunction, y: BindingFunction) -> bool {
    &&& x.spec_identifier() == y.spec_identifier()
    &&& args_like(x.spec_arguments(), y.spec_arguments())
    &&& match (x.spec_structure(), y.spec_structure()) {
        (Some(s1), Some(s2)) => s1@ == s2@,
        (None, None) => true,
        _ => false,
    }
    &&& match (x.spec_return_value(), y.spec_return_value()) {
        (Some((t1, c1)), Some((t2, c2))) => crate::types::same_shape(t1, t2) && c1 == c2,
        (None, None) => true,
        _ => false,
    }
}

proof fn lemma_casts_text_congruent(a: Seq<BindingArgument>, b: Seq<BindingArgument>)
    requires
        args_like(a, b),
    ensures
        casts_text(a) == casts_text(b),
    decreases a.len(),
{
    if a.len() > 0 {
        assert forall|i: int| 0 <= i < a.drop_last().len() implies arg_like(
            #[trigger] a.drop_last()[i],
            b.drop_last()[i],
        ) by {
            assert(arg_like(a[i], b[i]));
        }
        lemma_casts_text_congruent(a.drop_last(), b.drop_last());
        assert(arg_like(a.last(), b.last()));
        crate::cast::lemma_cast_text_congruent(
            a.last().category,
            a.last().identifier@,
            a.last().native_type,
            b.last().native_type,
        );
    }
}

proof fn lemma_call_args_text_congruent(a: Seq<BindingArgument>, b: Seq<BindingArgument>)
    requires
        args_like(a, b),
    ensures
        call_args_text(a) == call_args_text(b),
    decreases a.len(),
{
    if a.len() > 1 {
        assert forall|i: int| 0 <= i < a.drop_last().len() implies arg_like(
            #[trigger] a.drop_last()[i],
            b.drop_last()[i],
        ) by {
            assert(arg_like(a[i], b[i]));
        }
        lemma_call_args_text_congruent(a.drop_last(), b.drop_last());
        assert(arg_like(a.last(), b.last()));
    } else if a.len() == 1 {
        assert(arg_like(a[0], b[0]));
    }
}

proof fn lemma_binding_params_text_congruent(a: Seq<BindingArgument>, b: Seq<BindingArgument>)
    requires
        args_like(a, b),
    ensures
        binding_params_text(a) == binding_params_text(b),
    decreases a.len(),
{
    if a.len() > 0 {
        assert forall|i: int| 0 <= i < a.drop_last().len() implies arg_like(
            #[trigger] a.drop_last()[i],
            b.drop_last()[i],
        ) by {
            assert(arg_like(a[i], b[i]));
        }
        lemma_binding_params_text_congruent(a.drop_last(), b.drop_last());
        assert(arg_like(a.last(), b.last()));
    }
}

/// Generation is a function of the bound signature's content alone: two
/// bound functions that agree on identifier text, owning type text,
/// classified parameters and return category generate byte-identical entry
/// points and signature constants, however and whenever each was built.
pub proof fn lemma_generation_deterministic(x: BindingFunction, y: BindingFunction)
    requires
        bf_like(x, y),
    ensures
        binding_function_text(x) == binding_function_text(y),
        signature_const_text(x) == signature_const_text(y),
        binding_function_name_text(x) == binding_function_name_text(y),
{
    lemma_casts_text_congruent(x.spec_arguments(), y.spec_arguments());
    lemma_call_args_text_congruent(x.spec_arguments(), y.spec_arguments());
    lemma_binding_params_text_congruent(x.spec_arguments(), y.spec_arguments());
    assert(cats(x.spec_arguments()) =~= cats(y.spec_arguments()));
}

/// Generation is idempotent: the generated entry point and the signature
/// constant are functions of the bound signature alone, so generating twice
/// from one bound function yields byte-identical text.
pub proof fn lemma_generation_idempotent(
    bf: &BindingFunction,
    r1: String,
    r2: String,
    s1: String,
    s2: String,
)
    requires
        r1@ == binding_function_text(*bf),
        r2@ == binding_function_text(*bf),
        s1@ == signature_const_text(*bf),
        s2@ == signature_const_text(*bf),
    ensures
        r1@ == r2@,
        s1@ == s2@,
{
}

} // verus!
