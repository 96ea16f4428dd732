//! The plan of the code generator.
//!
//! The traits of this crate and their implementations are many and alike, so
//! their source is rendered from templates: one file for each kind of trait,
//! from a template for the trait and a template for each implementation. This
//! module decides which files there are, which templates make each of them, in
//! which order, and which values each rendering sees. Reading the templates,
//! rendering them and writing the files is left to the caller.

use crate::tera_api;
use crate::tera_api::context_map;
use tera::Context;
use vstd::prelude::*;

verus! {

/// The type of a lane.
#[derive(Clone, Copy, PartialEq, Eq, Debug, Structural)]
pub enum Scalar {
    I16,
    U16,
    I32,
    U32,
    I64,
    U64,
    F32,
    F64,
}

/// A family of traits: what it asks of the scalar.
#[derive(Clone, Copy, PartialEq, Eq, Debug, Structural)]
pub enum Tier {
    Gen,
    Signed,
    Float,
    Int,
    SInt,
    UInt,
}

/// A value that a template can read.
#[derive(Debug)]
pub enum Value {
    Flag(bool),
    Number(u8),
    Text(String),
}

/// A name and the value that a template finds under it.
#[derive(Debug)]
pub struct Binding {
    pub key: String,
    pub value: Value,
}

/// One rendering: a template and the values it sees, in the order in which
/// they were bound.
#[derive(Debug)]
pub struct Render {
    pub template: String,
    pub context: Vec<Binding>,
}

/// One file: its path and the renderings that make it, in order.
#[derive(Debug)]
pub struct Output {
    pub path: String,
    pub renders: Vec<Render>,
}

/// The model of a [`Value`].
pub enum ValueView {
    Flag(bool),
    Number(int),
    Text(Seq<char>),
}

/// The model of a [`Binding`].
pub struct BindingView {
    pub key: Seq<char>,
    pub value: ValueView,
}

/// The model of a [`Render`].
pub struct RenderView {
    pub template: Seq<char>,
    pub context: Seq<BindingView>,
}

/// The model of an [`Output`].
pub struct OutputView {
    pub path: Seq<char>,
    pub renders: Seq<RenderView>,
}

impl View for Value {
    type V = ValueView;

    open spec fn view(&self) -> ValueView {
        match self {
            Value::Flag(b) => ValueView::Flag(*b),
            Value::Number(n) => ValueView::Number(*n as int),
            Value::Text(s) => ValueView::Text(s@),
        }
    }
}

impl View for Binding {
    type V = BindingView;

    open spec fn view(&self) -> BindingView {
        BindingView { key: self.key@, value: self.value@ }
    }
}

/// The models of a sequence of bindings.
pub open spec fn bindings_view(s: Seq<Binding>) -> Seq<BindingView> {
    Seq::new(s.len(), |i: int| s[i]@)
}

impl View for Render {
    type V = RenderView;

    open spec fn view(&self) -> RenderView {
        RenderView { template: self.template@, context: bindings_view(self.context@) }
    }
}

/// The models of a sequence of renderings.
pub open spec fn renders_view(s: Seq<Render>) -> Seq<RenderView> {
    Seq::new(s.len(), |i: int| s[i]@)
}

impl View for Output {
    type V = OutputView;

    open spec fn view(&self) -> OutputView {
        OutputView { path: self.path@, renders: renders_view(self.renders@) }
    }
}

/// The models of a sequence of files.
pub open spec fn outputs_view(s: Seq<Output>) -> Seq<OutputView> {
    Seq::new(s.len(), |i: int| s[i]@)
}

/// The name of the scalar as the language writes it.
pub open spec fn scalar_name_spec(s: Scalar) -> Seq<char> {
    match s {
        Scalar::I16 => "i16"@,
        Scalar::U16 => "u16"@,
        Scalar::I32 => "i32"@,
        Scalar::U32 => "u32"@,
        Scalar::I64 => "i64"@,
        Scalar::U64 => "u64"@,
        Scalar::F32 => "f32"@,
        Scalar::F64 => "f64"@,
    }
}

/// The name of the scalar as the language writes it.
pub fn scalar_name(s: Scalar) -> (r: &'static str)
    ensures
        r@ == scalar_name_spec(s),
{
    match s {
        Scalar::I16 => "i16",
        Scalar::U16 => "u16",
        Scalar::I32 => "i32",
        Scalar::U32 => "u32",
        Scalar::I64 => "i64",
        Scalar::U64 => "u64",
        Scalar::F32 => "f32",
        Scalar::F64 => "f64",
    }
}

/// What stands before `Vec` in the names of the vectors of this scalar.
pub open spec fn scalar_prefix_spec(s: Scalar) -> Seq<char> {
    match s {
        Scalar::I16 => "I16"@,
        Scalar::U16 => "U16"@,
        Scalar::I32 => "I"@,
        Scalar::U32 => "U"@,
        Scalar::I64 => "I64"@,
        Scalar::U64 => "U64"@,
        Scalar::F32 => ""@,
        Scalar::F64 => "D"@,
    }
}

/// What stands before `Vec` in the names of the vectors of this scalar.
pub fn scalar_prefix(s: Scalar) -> (r: &'static str)
    ensures
        r@ == scalar_prefix_spec(s),
{
    match s {
        Scalar::I16 => "I16",
        Scalar::U16 => "U16",
        Scalar::I32 => "I",
        Scalar::U32 => "U",
        Scalar::I64 => "I64",
        Scalar::U64 => "U64",
        Scalar::F32 => "",
        Scalar::F64 => "D",
    }
}

/// The name of the family in paths.
pub open spec fn tier_name_spec(t: Tier) -> Seq<char> {
    match t {
        Tier::Gen => "gen"@,
        Tier::Signed => "signed"@,
        Tier::Float => "float"@,
        Tier::Int => "int"@,
        Tier::SInt => "sint"@,
        Tier::UInt => "uint"@,
    }
}

/// The name of the family in paths.
pub fn tier_name(t: Tier) -> (r: &'static str)
    ensures
        r@ == tier_name_spec(t),
{
    match t {
        Tier::Gen => "gen",
        Tier::Signed => "signed",
        Tier::Float => "float",
        Tier::Int => "int",
        Tier::SInt => "sint",
        Tier::UInt => "uint",
    }
}

/// Whether the family asks for a signed scalar.
pub open spec fn is_signed_spec(t: Tier) -> bool {
    match t {
        Tier::Gen => false,
        Tier::Signed => true,
        Tier::Float => true,
        Tier::Int => false,
        Tier::SInt => true,
        Tier::UInt => false,
    }
}

/// Whether the family asks for a signed scalar.
pub fn is_signed(t: Tier) -> (r: bool)
    ensures
        r == is_signed_spec(t),
{
    match t {
        Tier::Gen => false,
        Tier::Signed => true,
        Tier::Float => true,
        Tier::Int => false,
        Tier::SInt => true,
        Tier::UInt => false,
    }
}

/// Whether the family asks for a floating-point scalar.
pub open spec fn is_float_spec(t: Tier) -> bool {
    match t {
        Tier::Gen => false,
        Tier::Signed => false,
        Tier::Float => true,
        Tier::Int => false,
        Tier::SInt => false,
        Tier::UInt => false,
    }
}

/// Whether the family asks for a floating-point scalar.
pub fn is_float(t: Tier) -> (r: bool)
    ensures
        r == is_float_spec(t),
{
    match t {
        Tier::Gen => false,
        Tier::Signed => false,
        Tier::Float => true,
        Tier::Int => false,
        Tier::SInt => false,
        Tier::UInt => false,
    }
}

/// Whether the family asks for an integer scalar.
pub open spec fn is_int_spec(t: Tier) -> bool {
    match t {
        Tier::Gen => false,
        Tier::Signed => false,
        Tier::Float => false,
        Tier::Int => true,
        Tier::SInt => true,
        Tier::UInt => true,
    }
}

/// Whether the family asks for an integer scalar.
pub fn is_int(t: Tier) -> (r: bool)
    ensures
        r == is_int_spec(t),
{
    match t {
        Tier::Gen => false,
        Tier::Signed => false,
        Tier::Float => false,
        Tier::Int => true,
        Tier::SInt => true,
        Tier::UInt => true,
    }
}

/// Whether the family asks for an unsigned scalar.
pub open spec fn is_unsigned_spec(t: Tier) -> bool {
    match t {
        Tier::Gen => false,
        Tier::Signed => false,
        Tier::Float => false,
        Tier::Int => false,
        Tier::SInt => false,
        Tier::UInt => true,
    }
}

/// Whether the family asks for an unsigned scalar.
pub fn is_unsigned(t: Tier) -> (r: bool)
    ensures
        r == is_unsigned_spec(t),
{
    match t {
        Tier::Gen => false,
        Tier::Signed => false,
        Tier::Float => false,
        Tier::Int => false,
        Tier::SInt => false,
        Tier::UInt => true,
    }
}

/// The scalars whose vectors implement the traits of the family, in the order
/// in which their implementations are rendered.
pub open spec fn tier_scalars_spec(t: Tier) -> Seq<Scalar> {
    match t {
        Tier::Gen => seq![
            Scalar::I16,
            Scalar::U16,
            Scalar::I32,
            Scalar::U32,
            Scalar::I64,
            Scalar::U64,
            Scalar::F32,
            Scalar::F64,
        ],
        Tier::Signed => seq![Scalar::I16, Scalar::I32, Scalar::I64, Scalar::F32, Scalar::F64],
        Tier::Float => seq![Scalar::F32, Scalar::F64],
        Tier::Int => seq![
            Scalar::I16,
            Scalar::U16,
            Scalar::I32,
            Scalar::U32,
            Scalar::I64,
            Scalar::U64,
        ],
        Tier::SInt => seq![Scalar::I16, Scalar::I32, Scalar::I64],
        Tier::UInt => seq![Scalar::U16, Scalar::U32, Scalar::U64],
    }
}

/// The scalars whose vectors implement the traits of the family, in the order
/// in which their implementations are rendered.
pub fn tier_scalars(t: Tier) -> (r: Vec<Scalar>)
    ensures
        r@ == tier_scalars_spec(t),
{
    match t {
        Tier::Gen => vec![
            Scalar::I16,
            Scalar::U16,
            Scalar::I32,
            Scalar::U32,
            Scalar::I64,
            Scalar::U64,
            Scalar::F32,
            Scalar::F64,
        ],
        Tier::Signed => vec![Scalar::I16, Scalar::I32, Scalar::I64, Scalar::F32, Scalar::F64],
        Tier::Float => vec![Scalar::F32, Scalar::F64],
        Tier::Int => vec![
            Scalar::I16,
            Scalar::U16,
            Scalar::I32,
            Scalar::U32,
            Scalar::I64,
            Scalar::U64,
        ],
        Tier::SInt => vec![Scalar::I16, Scalar::I32, Scalar::I64],
        Tier::UInt => vec![Scalar::U16, Scalar::U32, Scalar::U64],
    }
}

/// The decimal digit of a number below ten.
pub open spec fn digit_spec(d: int) -> Seq<char> {
    if d == 0 {
        "0"@
    } else if d == 1 {
        "1"@
    } else if d == 2 {
        "2"@
    } else if d == 3 {
        "3"@
    } else if d == 4 {
        "4"@
    } else if d == 5 {
        "5"@
    } else if d == 6 {
        "6"@
    } else if d == 7 {
        "7"@
    } else if d == 8 {
        "8"@
    } else {
        "9"@
    }
}

/// The decimal digit of a number below ten.
pub fn digit(d: u8) -> (r: &'static str)
    requires
        d <= 9,
    ensures
        r@ == digit_spec(d as int),
{
    if d == 0 {
        "0"
    } else if d == 1 {
        "1"
    } else if d == 2 {
        "2"
    } else if d == 3 {
        "3"
    } else if d == 4 {
        "4"
    } else if d == 5 {
        "5"
    } else if d == 6 {
        "6"
    } else if d == 7 {
        "7"
    } else if d == 8 {
        "8"
    } else {
        "9"
    }
}

/// The decimal numeral of `n`.
pub open spec fn decimal_spec(n: nat) -> Seq<char>
    decreases n,
{
    if n < 10 {
        digit_spec(n as int)
    } else {
        decimal_spec(n / 10) + digit_spec((n % 10) as int)
    }
}

/// The decimal numeral of `n`.
pub fn decimal(n: u8) -> (r: String)
    ensures
        r@ == decimal_spec(n as nat),
{
    proof {
        reveal_with_fuel(decimal_spec, 3);
    }
    if n < 10 {
        String::from_str(digit(n))
    } else if n < 100 {
        let mut r = String::from_str(digit(n / 10));
        r.append(digit(n % 10));
        r
    } else {
        let mut r = String::from_str(digit(n / 100));
        r.append(digit(n / 10 % 10));
        r.append(digit(n % 10));
        r
    }
}

/// The number of lanes of a vector.
#[derive(Clone, Copy, PartialEq, Eq, Debug, Structural)]
pub enum Dim {
    Two,
    Three,
    Four,
}

/// The number of lanes as a number.
pub open spec fn lanes_spec(d: Dim) -> int {
    match d {
        Dim::Two => 2,
        Dim::Three => 3,
        Dim::Four => 4,
    }
}

/// The number of lanes as a number.
pub fn lanes(d: Dim) -> (r: u8)
    ensures
        r == lanes_spec(d),
{
    match d {
        Dim::Two => 2,
        Dim::Three => 3,
        Dim::Four => 4,
    }
}

/// A boolean vector of `glam`.
#[derive(Clone, Copy, PartialEq, Eq, Debug, Structural)]
pub enum Mask {
    BVec2,
    BVec3,
    BVec3A,
    BVec4,
    BVec4A,
}

/// The name of the mask.
pub open spec fn mask_name_spec(m: Mask) -> Seq<char> {
    match m {
        Mask::BVec2 => "BVec2"@,
        Mask::BVec3 => "BVec3"@,
        Mask::BVec3A => "BVec3A"@,
        Mask::BVec4 => "BVec4"@,
        Mask::BVec4A => "BVec4A"@,
    }
}

/// The name of the mask.
pub fn mask_name(m: Mask) -> (r: &'static str)
    ensures
        r@ == mask_name_spec(m),
{
    match m {
        Mask::BVec2 => "BVec2",
        Mask::BVec3 => "BVec3",
        Mask::BVec3A => "BVec3A",
        Mask::BVec4 => "BVec4",
        Mask::BVec4A => "BVec4A",
    }
}

/// The number of lanes of the mask.
pub open spec fn mask_dim_spec(m: Mask) -> Dim {
    match m {
        Mask::BVec2 => Dim::Two,
        Mask::BVec3 => Dim::Three,
        Mask::BVec3A => Dim::Three,
        Mask::BVec4 => Dim::Four,
        Mask::BVec4A => Dim::Four,
    }
}

/// The number of lanes of the mask.
pub fn mask_dim(m: Mask) -> (r: Dim)
    ensures
        r == mask_dim_spec(m),
{
    match m {
        Mask::BVec2 => Dim::Two,
        Mask::BVec3 => Dim::Three,
        Mask::BVec3A => Dim::Three,
        Mask::BVec4 => Dim::Four,
        Mask::BVec4A => Dim::Four,
    }
}

/// The mask that the comparisons of a vector give: that of its length, but
/// for the four `f32` lanes that live in one register.
pub open spec fn mask_of_spec(s: Scalar, d: Dim) -> Mask {
    match d {
        Dim::Two => Mask::BVec2,
        Dim::Three => Mask::BVec3,
        Dim::Four => if s == Scalar::F32 {
            Mask::BVec4A
        } else {
            Mask::BVec4
        },
    }
}

/// The mask that the comparisons of a vector give: that of its length, but
/// for the four `f32` lanes that live in one register.
pub fn mask_of(s: Scalar, d: Dim) -> (r: Mask)
    ensures
        r == mask_of_spec(s, d),
{
    match d {
        Dim::Two => Mask::BVec2,
        Dim::Three => Mask::BVec3,
        Dim::Four => match s {
            Scalar::F32 => Mask::BVec4A,
            _ => Mask::BVec4,
        },
    }
}

/// The name of the vector of `s` with `n` lanes: the prefix of the scalar,
/// `Vec` and the number.
pub open spec fn vec_name_spec(s: Scalar, n: nat) -> Seq<char> {
    scalar_prefix_spec(s) + "Vec"@ + decimal_spec(n)
}

/// The name of the vector of `s` with `n` lanes: the prefix of the scalar,
/// `Vec` and the number.
pub fn vec_name(s: Scalar, n: u8) -> (r: String)
    ensures
        r@ == vec_name_spec(s, n as nat),
{
    let mut r = String::from_str(scalar_prefix(s));
    r.append("Vec");
    let number = decimal(n);
    r.append(number.as_str());
    r
}

/// What a path holds for the length of the vectors: the number, or nothing
/// for the traits of any length.
pub open spec fn dim_suffix_spec(dim: Option<Dim>) -> Seq<char> {
    match dim {
        Some(d) => decimal_spec(lanes_spec(d) as nat),
        None => Seq::empty(),
    }
}

/// What a path holds for the length of the vectors: the number, or nothing
/// for the traits of any length.
pub fn dim_suffix(dim: Option<Dim>) -> (r: String)
    ensures
        r@ == dim_suffix_spec(dim),
{
    match dim {
        Some(d) => decimal(lanes(d)),
        None => String::new(),
    }
}

/// The file of the boolean vector trait of a length.
pub open spec fn mask_path_spec(dim: Option<Dim>) -> Seq<char> {
    "src/bvec/gbvec"@ + dim_suffix_spec(dim) + ".rs"@
}

/// The file of the boolean vector trait of a length.
pub fn mask_path(dim: Option<Dim>) -> (r: String)
    ensures
        r@ == mask_path_spec(dim),
{
    let mut r = String::from_str("src/bvec/gbvec");
    let suffix = dim_suffix(dim);
    r.append(suffix.as_str());
    r.append(".rs");
    r
}

/// The file of the vector trait of a family and a length.
pub open spec fn vec_path_spec(t: Tier, dim: Option<Dim>) -> Seq<char> {
    "src/vec/"@ + tier_name_spec(t) + "/"@ + tier_name_spec(t) + "_vec"@ + dim_suffix_spec(dim)
        + ".rs"@
}

/// The file of the vector trait of a family and a length.
pub fn vec_path(t: Tier, dim: Option<Dim>) -> (r: String)
    ensures
        r@ == vec_path_spec(t, dim),
{
    let mut r = String::from_str("src/vec/");
    r.append(tier_name(t));
    r.append("/");
    r.append(tier_name(t));
    r.append("_vec");
    let suffix = dim_suffix(dim);
    r.append(suffix.as_str());
    r.append(".rs");
    r
}

/// The file of the vector trait of a scalar.
pub open spec fn typed_path_spec(s: Scalar) -> Seq<char> {
    "src/vec/typed/"@ + scalar_name_spec(s) + "_vec.rs"@
}

/// The file of the vector trait of a scalar.
pub fn typed_path(s: Scalar) -> (r: String)
    ensures
        r@ == typed_path_spec(s),
{
    let mut r = String::from_str("src/vec/typed/");
    r.append(scalar_name(s));
    r.append("_vec.rs");
    r
}


/// The binding of a name to a flag.
pub open spec fn flag_spec(key: Seq<char>, v: bool) -> BindingView {
    BindingView { key, value: ValueView::Flag(v) }
}

/// The binding of a name to a number.
pub open spec fn number_spec(key: Seq<char>, n: int) -> BindingView {
    BindingView { key, value: ValueView::Number(n) }
}

/// The binding of a name to a text.
pub open spec fn text_spec(key: Seq<char>, v: Seq<char>) -> BindingView {
    BindingView { key, value: ValueView::Text(v) }
}

/// The binding of a name to a flag.
pub fn flag(key: &str, v: bool) -> (r: Binding)
    ensures
        r@ == flag_spec(key@, v),
{
    Binding { key: String::from_str(key), value: Value::Flag(v) }
}

/// The binding of a name to a number.
pub fn number(key: &str, n: u8) -> (r: Binding)
    ensures
        r@ == number_spec(key@, n as int),
{
    Binding { key: String::from_str(key), value: Value::Number(n) }
}

/// The binding of a name to a text.
pub fn text(key: &str, v: String) -> (r: Binding)
    ensures
        r@ == text_spec(key@, v@),
{
    Binding { key: String::from_str(key), value: Value::Text(v) }
}

/// A rendering of `template` with the values of `context`.
pub fn render(template: &str, context: Vec<Binding>) -> (r: Render)
    ensures
        r@ == (RenderView { template: template@, context: bindings_view(context@) }),
{
    Render { template: String::from_str(template), context }
}

/// What every rendering of a file sees of the length of its vectors: `dim`,
/// or nothing in a file for any length.
pub open spec fn dim_context_spec(dim: Option<Dim>) -> Seq<BindingView> {
    match dim {
        Some(d) => seq![number_spec("dim"@, lanes_spec(d))],
        None => Seq::empty(),
    }
}

/// Adds to `context` what every rendering of a file sees of the length of its
/// vectors.
pub fn bind_dim(context: &mut Vec<Binding>, dim: Option<Dim>)
    ensures
        bindings_view(final(context)@) =~= bindings_view(old(context)@) + dim_context_spec(dim),
{
    match dim {
        Some(d) => {
            context.push(number("dim", lanes(d)));
        },
        None => {},
    }
}

/// What the rendering of the implementation for the mask `m` sees, in a file
/// for the length `dim`.
pub open spec fn mask_impl_context_spec(dim: Option<Dim>, m: Mask) -> Seq<BindingView> {
    dim_context_spec(dim) + seq![
        text_spec("impl_t"@, mask_name_spec(m)),
        number_spec("impl_dim"@, lanes_spec(mask_dim_spec(m))),
    ]
}

/// What the rendering of the implementation for the mask `m` sees, in a file
/// for the length `dim`.
pub fn mask_impl_context(dim: Option<Dim>, m: Mask) -> (r: Vec<Binding>)
    ensures
        bindings_view(r@) =~= mask_impl_context_spec(dim, m),
{
    let mut r: Vec<Binding> = Vec::new();
    bind_dim(&mut r, dim);
    r.push(text("impl_t", String::from_str(mask_name(m))));
    r.push(number("impl_dim", lanes(mask_dim(m))));
    r
}

/// What every rendering of the file of a family and a length sees: what the
/// family asks of the scalar, and the length.
pub open spec fn vec_context_spec(t: Tier, dim: Option<Dim>) -> Seq<BindingView> {
    seq![
        flag_spec("is_signed"@, is_signed_spec(t)),
        flag_spec("is_float"@, is_float_spec(t)),
        flag_spec("is_int"@, is_int_spec(t)),
        flag_spec("is_unsigned"@, is_unsigned_spec(t)),
    ] + dim_context_spec(dim)
}

/// What every rendering of the file of a family and a length sees: what the
/// family asks of the scalar, and the length.
pub fn vec_context(t: Tier, dim: Option<Dim>) -> (r: Vec<Binding>)
    ensures
        bindings_view(r@) =~= vec_context_spec(t, dim),
{
    let mut r: Vec<Binding> = Vec::new();
    r.push(flag("is_signed", is_signed(t)));
    r.push(flag("is_float", is_float(t)));
    r.push(flag("is_int", is_int(t)));
    r.push(flag("is_unsigned", is_unsigned(t)));
    bind_dim(&mut r, dim);
    r
}

/// The name of the implementing vector: that of the scalar and the length, or
/// `Vec3A` for the three `f32` lanes that live in one register.
pub open spec fn impl_name_spec(s: Scalar, d: Dim, aligned: bool) -> Seq<char> {
    if aligned {
        "Vec3A"@
    } else {
        vec_name_spec(s, lanes_spec(d) as nat)
    }
}

/// The name of the implementing vector: that of the scalar and the length, or
/// `Vec3A` for the three `f32` lanes that live in one register.
pub fn impl_name(s: Scalar, d: Dim, aligned: bool) -> (r: String)
    ensures
        r@ == impl_name_spec(s, d, aligned),
{
    if aligned {
        String::from_str("Vec3A")
    } else {
        vec_name(s, lanes(d))
    }
}

/// The name of the mask of the implementing vector: that of `mask_of`, or
/// `BVec3A` beside `Vec3A`.
pub open spec fn impl_mask_name_spec(s: Scalar, d: Dim, aligned: bool) -> Seq<char> {
    if aligned {
        "BVec3A"@
    } else {
        mask_name_spec(mask_of_spec(s, d))
    }
}

/// The name of the mask of the implementing vector: that of `mask_of`, or
/// `BVec3A` beside `Vec3A`.
pub fn impl_mask_name(s: Scalar, d: Dim, aligned: bool) -> (r: String)
    ensures
        r@ == impl_mask_name_spec(s, d, aligned),
{
    if aligned {
        String::from_str("BVec3A")
    } else {
        String::from_str(mask_name(mask_of(s, d)))
    }
}

/// What the rendering of the implementation for the vector of `s` with `d`
/// lanes sees, in the file of a family and a length.
pub open spec fn vec_impl_context_spec(
    t: Tier,
    dim: Option<Dim>,
    s: Scalar,
    d: Dim,
    aligned: bool,
) -> Seq<BindingView> {
    vec_context_spec(t, dim) + seq![
        text_spec("impl_t"@, impl_name_spec(s, d, aligned)),
        text_spec("impl_scalar_t"@, scalar_name_spec(s)),
        number_spec("impl_dim"@, lanes_spec(d)),
        text_spec("impl_bvec_t"@, impl_mask_name_spec(s, d, aligned)),
        text_spec("impl_minus_one_t"@, vec_name_spec(s, (lanes_spec(d) - 1) as nat)),
        text_spec("impl_plus_one_t"@, vec_name_spec(s, (lanes_spec(d) + 1) as nat)),
    ]
}

/// What the rendering of the implementation for the vector of `s` with `d`
/// lanes sees, in the file of a family and a length.
pub fn vec_impl_context(t: Tier, dim: Option<Dim>, s: Scalar, d: Dim, aligned: bool) -> (r: Vec<
    Binding,
>)
    ensures
        bindings_view(r@) =~= vec_impl_context_spec(t, dim, s, d, aligned),
{
    let mut r = vec_context(t, dim);
    r.push(text("impl_t", impl_name(s, d, aligned)));
    r.push(text("impl_scalar_t", String::from_str(scalar_name(s))));
    r.push(number("impl_dim", lanes(d)));
    r.push(text("impl_bvec_t", impl_mask_name(s, d, aligned)));
    r.push(text("impl_minus_one_t", vec_name(s, lanes(d) - 1)));
    r.push(text("impl_plus_one_t", vec_name(s, lanes(d) + 1)));
    r
}

/// What every rendering of the file of a scalar sees: the scalar.
pub open spec fn typed_context_spec(s: Scalar) -> Seq<BindingView> {
    seq![text_spec("strong_t"@, scalar_name_spec(s))]
}

/// What every rendering of the file of a scalar sees: the scalar.
pub fn typed_context(s: Scalar) -> (r: Vec<Binding>)
    ensures
        bindings_view(r@) =~= typed_context_spec(s),
{
    let mut r: Vec<Binding> = Vec::new();
    r.push(text("strong_t", String::from_str(scalar_name(s))));
    r
}

/// What the rendering of the implementation for the vector of `s` with `d`
/// lanes sees, in the file of the scalar.
pub open spec fn typed_impl_context_spec(s: Scalar, d: Dim, aligned: bool) -> Seq<BindingView> {
    typed_context_spec(s) + seq![
        text_spec("impl_t"@, impl_name_spec(s, d, aligned)),
        number_spec("impl_dim"@, lanes_spec(d)),
        text_spec("impl_bvec_t"@, impl_mask_name_spec(s, d, aligned)),
    ]
}

/// What the rendering of the implementation for the vector of `s` with `d`
/// lanes sees, in the file of the scalar.
pub fn typed_impl_context(s: Scalar, d: Dim, aligned: bool) -> (r: Vec<Binding>)
    ensures
        bindings_view(r@) =~= typed_impl_context_spec(s, d, aligned),
{
    let mut r = typed_context(s);
    r.push(text("impl_t", impl_name(s, d, aligned)));
    r.push(number("impl_dim", lanes(d)));
    r.push(text("impl_bvec_t", impl_mask_name(s, d, aligned)));
    r
}


/// The model of a sequence of renderings with one more is the model of the
/// sequence with the model of that one more.
pub proof fn lemma_renders_push(v: Seq<Render>, x: Render)
    ensures
        renders_view(v.push(x)) =~= renders_view(v).push(x@),
{
}

/// The masks whose implementations stand in the file for a length, in order:
/// in the file for any length all of them, else those of that length.
pub open spec fn masks_spec(dim: Option<Dim>) -> Seq<Mask> {
    match dim {
        None => seq![Mask::BVec2, Mask::BVec3, Mask::BVec3A, Mask::BVec4, Mask::BVec4A],
        Some(Dim::Two) => seq![Mask::BVec2],
        Some(Dim::Three) => seq![Mask::BVec3, Mask::BVec3A],
        Some(Dim::Four) => seq![Mask::BVec4, Mask::BVec4A],
    }
}

/// The masks whose implementations stand in the file for a length, in order:
/// in the file for any length all of them, else those of that length.
pub fn masks(dim: Option<Dim>) -> (r: Vec<Mask>)
    ensures
        r@ == masks_spec(dim),
{
    match dim {
        None => vec![Mask::BVec2, Mask::BVec3, Mask::BVec3A, Mask::BVec4, Mask::BVec4A],
        Some(Dim::Two) => vec![Mask::BVec2],
        Some(Dim::Three) => vec![Mask::BVec3, Mask::BVec3A],
        Some(Dim::Four) => vec![Mask::BVec4, Mask::BVec4A],
    }
}

/// The lengths of the vectors whose implementations stand in a file for a
/// length: in a file for any length all three, else that length.
pub open spec fn impl_dims_spec(dim: Option<Dim>) -> Seq<Dim> {
    match dim {
        None => seq![Dim::Two, Dim::Three, Dim::Four],
        Some(d) => seq![d],
    }
}

/// The lengths of the vectors whose implementations stand in a file for a
/// length: in a file for any length all three, else that length.
pub fn impl_dims(dim: Option<Dim>) -> (r: Vec<Dim>)
    ensures
        r@ == impl_dims_spec(dim),
{
    match dim {
        None => vec![Dim::Two, Dim::Three, Dim::Four],
        Some(d) => vec![d],
    }
}

/// The rendering of the boolean vector trait of a length.
pub open spec fn mask_trait_render_spec(dim: Option<Dim>) -> RenderView {
    RenderView { template: "bvec.rs.tera"@, context: dim_context_spec(dim) }
}

/// The rendering of the implementation of the boolean vector trait for `m`.
pub open spec fn mask_impl_render_spec(dim: Option<Dim>, m: Mask) -> RenderView {
    RenderView { template: "bvec_impl.rs.tera"@, context: mask_impl_context_spec(dim, m) }
}

/// The renderings of the implementations for the first `n` masks of the file.
pub open spec fn mask_impl_renders_spec(dim: Option<Dim>, n: nat) -> Seq<RenderView>
    decreases n,
{
    if n == 0 {
        Seq::empty()
    } else {
        mask_impl_renders_spec(dim, (n - 1) as nat).push(
            mask_impl_render_spec(dim, masks_spec(dim)[n - 1]),
        )
    }
}

/// The file of the boolean vector trait of a length: the trait, then its
/// implementation for each mask of the file.
pub open spec fn mask_output_spec(dim: Option<Dim>) -> OutputView {
    OutputView {
        path: mask_path_spec(dim),
        renders: seq![mask_trait_render_spec(dim)] + mask_impl_renders_spec(
            dim,
            masks_spec(dim).len(),
        ),
    }
}

/// The file of the boolean vector trait of a length: the trait, then its
/// implementation for each mask of the file.
pub fn mask_output(dim: Option<Dim>) -> (r: Output)
    ensures
        r@ == mask_output_spec(dim),
{
    let mut renders: Vec<Render> = Vec::new();
    let mut base: Vec<Binding> = Vec::new();
    bind_dim(&mut base, dim);
    renders.push(render("bvec.rs.tera", base));
    let all = masks(dim);
    let mut i: usize = 0;
    while i < all.len()
        invariant
            i <= all.len(),
            all@ == masks_spec(dim),
            renders_view(renders@) =~= seq![mask_trait_render_spec(dim)] + mask_impl_renders_spec(
                dim,
                i as nat,
            ),
        decreases all.len() - i,
    {
        let m = all[i];
        let next = render("bvec_impl.rs.tera", mask_impl_context(dim, m));
        proof {
            lemma_renders_push(renders@, next);
            assert(next@ == mask_impl_render_spec(dim, masks_spec(dim)[i as int]));
            assert(mask_impl_renders_spec(dim, (i + 1) as nat) == mask_impl_renders_spec(
                dim,
                i as nat,
            ).push(next@));
        }
        renders.push(next);
        i += 1;
    }
    Output { path: mask_path(dim), renders }
}

/// The rendering of the vector trait of a family and a length.
pub open spec fn vec_trait_render_spec(t: Tier, dim: Option<Dim>) -> RenderView {
    RenderView { template: "vec.rs.tera"@, context: vec_context_spec(t, dim) }
}

/// The rendering of the implementation of the vector trait of a family for
/// the vector of `s` with `d` lanes.
pub open spec fn vec_impl_render_spec(
    t: Tier,
    dim: Option<Dim>,
    s: Scalar,
    d: Dim,
    aligned: bool,
) -> RenderView {
    RenderView {
        template: "vec_impl.rs.tera"@,
        context: vec_impl_context_spec(t, dim, s, d, aligned),
    }
}

/// Whether a second vector has the scalar `s` and `d` lanes: `Vec3A` beside
/// `Vec3`.
pub open spec fn has_aligned_spec(s: Scalar, d: Dim) -> bool {
    s == Scalar::F32 && d == Dim::Three
}

/// Whether a second vector has the scalar `s` and `d` lanes: `Vec3A` beside
/// `Vec3`.
pub fn has_aligned(s: Scalar, d: Dim) -> (r: bool)
    ensures
        r == has_aligned_spec(s, d),
{
    match s {
        Scalar::F32 => match d {
            Dim::Three => true,
            _ => false,
        },
        _ => false,
    }
}

/// The renderings of the implementations for the vectors of `s` with `d`
/// lanes: one, and one more where `Vec3A` stands beside `Vec3`.
pub open spec fn vec_pair_renders_spec(t: Tier, dim: Option<Dim>, s: Scalar, d: Dim) -> Seq<
    RenderView,
> {
    if has_aligned_spec(s, d) {
        seq![
            vec_impl_render_spec(t, dim, s, d, false),
            vec_impl_render_spec(t, dim, s, d, true),
        ]
    } else {
        seq![vec_impl_render_spec(t, dim, s, d, false)]
    }
}

/// The renderings of the implementations for the vectors of `s` of the first
/// `n` lengths of the file.
pub open spec fn vec_scalar_renders_spec(t: Tier, dim: Option<Dim>, s: Scalar, n: nat) -> Seq<
    RenderView,
>
    decreases n,
{
    if n == 0 {
        Seq::empty()
    } else {
        vec_scalar_renders_spec(t, dim, s, (n - 1) as nat) + vec_pair_renders_spec(
            t,
            dim,
            s,
            impl_dims_spec(dim)[n - 1],
        )
    }
}

/// The renderings of the implementations for the vectors of the first `n`
/// scalars of the family.
pub open spec fn vec_impl_renders_spec(t: Tier, dim: Option<Dim>, n: nat) -> Seq<RenderView>
    decreases n,
{
    if n == 0 {
        Seq::empty()
    } else {
        vec_impl_renders_spec(t, dim, (n - 1) as nat) + vec_scalar_renders_spec(
            t,
            dim,
            tier_scalars_spec(t)[n - 1],
            impl_dims_spec(dim).len(),
        )
    }
}

/// The file of the vector trait of a family and a length: the trait, then its
/// implementations, scalar by scalar and for each scalar length by length.
pub open spec fn vec_output_spec(t: Tier, dim: Option<Dim>) -> OutputView {
    OutputView {
        path: vec_path_spec(t, dim),
        renders: seq![vec_trait_render_spec(t, dim)] + vec_impl_renders_spec(
            t,
            dim,
            tier_scalars_spec(t).len(),
        ),
    }
}

/// The file of the vector trait of a family and a length: the trait, then its
/// implementations, scalar by scalar and for each scalar length by length.
pub fn vec_output(t: Tier, dim: Option<Dim>) -> (r: Output)
    ensures
        r@ == vec_output_spec(t, dim),
{
    let mut renders: Vec<Render> = Vec::new();
    renders.push(render("vec.rs.tera", vec_context(t, dim)));
    let scalars = tier_scalars(t);
    let dims = impl_dims(dim);
    let mut i: usize = 0;
    while i < scalars.len()
        invariant
            i <= scalars.len(),
            scalars@ == tier_scalars_spec(t),
            dims@ == impl_dims_spec(dim),
            renders_view(renders@) =~= seq![vec_trait_render_spec(t, dim)] + vec_impl_renders_spec(
                t,
                dim,
                i as nat,
            ),
        decreases scalars.len() - i,
    {
        let s = scalars[i];
        let ghost before = renders_view(renders@);
        let mut j: usize = 0;
        while j < dims.len()
            invariant
                j <= dims.len(),
                i < scalars.len(),
                s == scalars@[i as int],
                scalars@ == tier_scalars_spec(t),
                dims@ == impl_dims_spec(dim),
                renders_view(renders@) =~= before + vec_scalar_renders_spec(t, dim, s, j as nat),
            decreases dims.len() - j,
        {
            let d = dims[j];
            let ghost done = vec_scalar_renders_spec(t, dim, s, j as nat);
            let plain = render("vec_impl.rs.tera", vec_impl_context(t, dim, s, d, false));
            proof {
                lemma_renders_push(renders@, plain);
                assert(plain@ == vec_impl_render_spec(t, dim, s, d, false));
                assert(vec_scalar_renders_spec(t, dim, s, (j + 1) as nat) == done
                    + vec_pair_renders_spec(t, dim, s, d));
            }
            renders.push(plain);
            if has_aligned(s, d) {
                let aligned = render("vec_impl.rs.tera", vec_impl_context(t, dim, s, d, true));
                proof {
                    lemma_renders_push(renders@, aligned);
                    assert(aligned@ == vec_impl_render_spec(t, dim, s, d, true));
                }
                renders.push(aligned);
            }
            j += 1;
        }
        proof {
            assert(vec_impl_renders_spec(t, dim, (i + 1) as nat) == vec_impl_renders_spec(
                t,
                dim,
                i as nat,
            ) + vec_scalar_renders_spec(t, dim, s, dims@.len()));
        }
        i += 1;
    }
    Output { path: vec_path(t, dim), renders }
}

/// The rendering of the vector trait of a scalar.
pub open spec fn typed_trait_render_spec(s: Scalar) -> RenderView {
    RenderView { template: "vec.rs.tera"@, context: typed_context_spec(s) }
}

/// The rendering of the implementation of the vector trait of a scalar for
/// its vector with `d` lanes.
pub open spec fn typed_impl_render_spec(s: Scalar, d: Dim, aligned: bool) -> RenderView {
    RenderView { template: "vec_impl.rs.tera"@, context: typed_impl_context_spec(s, d, aligned) }
}

/// The renderings of the implementations for the vectors of `s` of the first
/// `n` lengths.
pub open spec fn typed_impl_renders_spec(s: Scalar, n: nat) -> Seq<RenderView>
    decreases n,
{
    if n == 0 {
        Seq::empty()
    } else {
        typed_impl_renders_spec(s, (n - 1) as nat).push(
            typed_impl_render_spec(s, impl_dims_spec(None)[n - 1], false),
        )
    }
}

/// The renderings of the implementations that follow those of the three
/// lengths: that for `Vec3A` in the file of `f32`.
pub open spec fn typed_aligned_renders_spec(s: Scalar) -> Seq<RenderView> {
    if s == Scalar::F32 {
        seq![typed_impl_render_spec(s, Dim::Three, true)]
    } else {
        Seq::empty()
    }
}

/// The file of the vector trait of a scalar: the trait, then its
/// implementations for the vectors of two, three and four lanes, then that
/// for `Vec3A` where the scalar is `f32`.
pub open spec fn typed_output_spec(s: Scalar) -> OutputView {
    OutputView {
        path: typed_path_spec(s),
        renders: seq![typed_trait_render_spec(s)] + typed_impl_renders_spec(s, 3)
            + typed_aligned_renders_spec(s),
    }
}

/// The file of the vector trait of a scalar: the trait, then its
/// implementations for the vectors of two, three and four lanes, then that
/// for `Vec3A` where the scalar is `f32`.
pub fn typed_output(s: Scalar) -> (r: Output)
    ensures
        r@ == typed_output_spec(s),
{
    let mut renders: Vec<Render> = Vec::new();
    renders.push(render("vec.rs.tera", typed_context(s)));
    let dims = impl_dims(None);
    let mut j: usize = 0;
    while j < dims.len()
        invariant
            j <= dims.len(),
            dims@ == impl_dims_spec(None),
            renders_view(renders@) =~= seq![typed_trait_render_spec(s)] + typed_impl_renders_spec(
                s,
                j as nat,
            ),
        decreases dims.len() - j,
    {
        let d = dims[j];
        let next = render("vec_impl.rs.tera", typed_impl_context(s, d, false));
        proof {
            lemma_renders_push(renders@, next);
            assert(next@ == typed_impl_render_spec(s, impl_dims_spec(None)[j as int], false));
            assert(typed_impl_renders_spec(s, (j + 1) as nat) == typed_impl_renders_spec(
                s,
                j as nat,
            ).push(next@));
        }
        renders.push(next);
        j += 1;
    }
    match s {
        Scalar::F32 => {
            let aligned = render("vec_impl.rs.tera", typed_impl_context(s, Dim::Three, true));
            proof {
                lemma_renders_push(renders@, aligned);
                assert(aligned@ == typed_impl_render_spec(s, Dim::Three, true));
            }
            renders.push(aligned);
        },
        _ => {},
    }
    proof {
        assert(renders_view(renders@) =~= seq![typed_trait_render_spec(s)]
            + typed_impl_renders_spec(s, 3) + typed_aligned_renders_spec(s));
    }
    Output { path: typed_path(s), renders }
}


/// The lengths that have a file of their boolean vector trait, in order:
/// any, three and four.
pub open spec fn mask_file_dims_spec() -> Seq<Option<Dim>> {
    seq![None, Some(Dim::Three), Some(Dim::Four)]
}

/// The lengths that have a file of their boolean vector trait, in order:
/// any, three and four.
pub fn mask_file_dims() -> (r: Vec<Option<Dim>>)
    ensures
        r@ == mask_file_dims_spec(),
{
    vec![None, Some(Dim::Three), Some(Dim::Four)]
}

/// The lengths that have files of their vector traits, in order: any, two,
/// three and four.
pub open spec fn vec_file_dims_spec() -> Seq<Option<Dim>> {
    seq![None, Some(Dim::Two), Some(Dim::Three), Some(Dim::Four)]
}

/// The lengths that have files of their vector traits, in order: any, two,
/// three and four.
pub fn vec_file_dims() -> (r: Vec<Option<Dim>>)
    ensures
        r@ == vec_file_dims_spec(),
{
    vec![None, Some(Dim::Two), Some(Dim::Three), Some(Dim::Four)]
}

/// The families, in the order of their files.
pub open spec fn tiers_spec() -> Seq<Tier> {
    seq![Tier::Gen, Tier::Signed, Tier::Float, Tier::Int, Tier::SInt, Tier::UInt]
}

/// The families, in the order of their files.
pub fn tiers() -> (r: Vec<Tier>)
    ensures
        r@ == tiers_spec(),
{
    vec![Tier::Gen, Tier::Signed, Tier::Float, Tier::Int, Tier::SInt, Tier::UInt]
}

/// The scalars, in the order of their files.
pub open spec fn scalars_spec() -> Seq<Scalar> {
    tier_scalars_spec(Tier::Gen)
}

/// The scalars, in the order of their files.
pub fn scalars() -> (r: Vec<Scalar>)
    ensures
        r@ == scalars_spec(),
{
    tier_scalars(Tier::Gen)
}

/// The whole plan: the three files of the boolean vector traits; then, length
/// by length and for each length family by family, the twenty-four files of
/// the vector traits; then the eight files of the vector traits of the
/// scalars.
pub open spec fn plan_spec() -> Seq<OutputView> {
    Seq::new(3, |i: int| mask_output_spec(mask_file_dims_spec()[i])) + Seq::new(
        24,
        |i: int| vec_output_spec(tiers_spec()[i % 6], vec_file_dims_spec()[i / 6]),
    ) + Seq::new(8, |i: int| typed_output_spec(scalars_spec()[i]))
}

/// The model of a sequence of files with one more is the model of the
/// sequence with the model of that one more.
pub proof fn lemma_outputs_push(v: Seq<Output>, x: Output)
    ensures
        outputs_view(v.push(x)) =~= outputs_view(v).push(x@),
{
}

/// The whole plan: every file that the generator writes, in the order in
/// which it writes them, each with its renderings in order.
pub fn plan() -> (r: Vec<Output>)
    ensures
        outputs_view(r@) =~= plan_spec(),
{
    let mut outputs: Vec<Output> = Vec::new();
    let mask_dims = mask_file_dims();
    let mut i: usize = 0;
    while i < mask_dims.len()
        invariant
            i <= mask_dims.len(),
            mask_dims@ == mask_file_dims_spec(),
            outputs@.len() == i,
            outputs_view(outputs@) =~= plan_spec().subrange(0, i as int),
        decreases mask_dims.len() - i,
    {
        let next = mask_output(mask_dims[i]);
        proof {
            lemma_outputs_push(outputs@, next);
            assert(plan_spec()[i as int] == next@);
        }
        outputs.push(next);
        i += 1;
    }
    let vec_dims = vec_file_dims();
    let all_tiers = tiers();
    let mut d: usize = 0;
    while d < vec_dims.len()
        invariant
            d <= vec_dims.len(),
            vec_dims@ == vec_file_dims_spec(),
            all_tiers@ == tiers_spec(),
            outputs@.len() == 3 + 6 * d,
            outputs_view(outputs@) =~= plan_spec().subrange(0, 3 + 6 * d),
        decreases vec_dims.len() - d,
    {
        let dim = vec_dims[d];
        let mut t: usize = 0;
        while t < all_tiers.len()
            invariant
                t <= all_tiers.len(),
                d < vec_dims.len(),
                dim == vec_dims@[d as int],
                vec_dims@ == vec_file_dims_spec(),
                all_tiers@ == tiers_spec(),
                outputs@.len() == 3 + 6 * d + t,
                outputs_view(outputs@) =~= plan_spec().subrange(0, 3 + 6 * d + t),
            decreases all_tiers.len() - t,
        {
            let next = vec_output(all_tiers[t], dim);
            proof {
                lemma_outputs_push(outputs@, next);
                let k: int = 6 * d + t;
                assert(k % 6 == t && k / 6 == d);
                assert(plan_spec()[3 + k] == vec_output_spec(
                    tiers_spec()[k % 6],
                    vec_file_dims_spec()[k / 6],
                ));
                assert(plan_spec()[3 + k] == next@);
            }
            outputs.push(next);
            t += 1;
        }
        d += 1;
    }
    let all_scalars = scalars();
    let mut s: usize = 0;
    while s < all_scalars.len()
        invariant
            s <= all_scalars.len(),
            all_scalars@ == scalars_spec(),
            outputs@.len() == 27 + s,
            outputs_view(outputs@) =~= plan_spec().subrange(0, 27 + s),
        decreases all_scalars.len() - s,
    {
        let next = typed_output(all_scalars[s]);
        proof {
            lemma_outputs_push(outputs@, next);
            assert(plan_spec()[27 + s] == typed_output_spec(scalars_spec()[s as int]));
        }
        outputs.push(next);
        s += 1;
    }
    proof {
        assert(plan_spec().subrange(0, 35) =~= plan_spec());
    }
    outputs
}


/// The map that the first `n` bindings make when they are bound in order: a
/// later binding of a name replaces an earlier one.
pub open spec fn bound_spec(s: Seq<BindingView>, n: nat) -> Map<Seq<char>, ValueView>
    decreases n,
{
    if n == 0 {
        Map::empty()
    } else {
        bound_spec(s, (n - 1) as nat).insert(s[n - 1].key, s[n - 1].value)
    }
}

/// The context that a rendering hands to the template: the bindings, bound
/// in order.
pub fn context_of(bindings: &Vec<Binding>) -> (r: Context)
    ensures
        context_map(r) == bound_spec(bindings_view(bindings@), bindings@.len()),
{
    let mut context = tera_api::new();
    let mut i: usize = 0;
    while i < bindings.len()
        invariant
            i <= bindings.len(),
            context_map(context) == bound_spec(bindings_view(bindings@), i as nat),
        decreases bindings.len() - i,
    {
        let binding = &bindings[i];
        proof {
            assert(bindings_view(bindings@)[i as int] == binding@);
        }
        match &binding.value {
            Value::Flag(v) => tera_api::insert_flag(&mut context, binding.key.as_str(), *v),
            Value::Number(n) => tera_api::insert_number(&mut context, binding.key.as_str(), *n),
            Value::Text(v) => tera_api::insert_text(
                &mut context,
                binding.key.as_str(),
                v.as_str(),
            ),
        }
        i += 1;
    }
    context
}


/// No two bindings of `c` bind the same name.
pub open spec fn no_name_twice(c: Seq<BindingView>) -> bool {
    forall|i: int, j: int| 0 <= i < j < c.len() ==> c[i].key != c[j].key
}

/// The names that the renderings bind differ from one another.
proof fn lemma_names_differ()
    ensures
        "dim"@.len() == 3,
        "impl_t"@.len() == 6 && "impl_t"@[1] == 'm',
        "is_int"@.len() == 6 && "is_int"@[1] == 's',
        "impl_dim"@.len() == 8 && "impl_dim"@[0] == 'i' && "impl_dim"@[1] == 'm',
        "is_float"@.len() == 8 && "is_float"@[0] == 'i' && "is_float"@[1] == 's',
        "strong_t"@.len() == 8 && "strong_t"@[0] == 's',
        "is_signed"@.len() == 9,
        "is_unsigned"@.len() == 11 && "is_unsigned"@[1] == 's',
        "impl_bvec_t"@.len() == 11 && "impl_bvec_t"@[1] == 'm',
        "impl_scalar_t"@.len() == 13,
        "impl_plus_one_t"@.len() == 15,
        "impl_minus_one_t"@.len() == 16,
{
    reveal_strlit("dim");
    reveal_strlit("impl_t");
    reveal_strlit("is_int");
    reveal_strlit("impl_dim");
    reveal_strlit("is_float");
    reveal_strlit("strong_t");
    reveal_strlit("is_signed");
    reveal_strlit("is_unsigned");
    reveal_strlit("impl_bvec_t");
    reveal_strlit("impl_scalar_t");
    reveal_strlit("impl_plus_one_t");
    reveal_strlit("impl_minus_one_t");
}

/// No rendering of the plan binds a name twice: not that of a trait, nor that
/// of an implementation, in the file of a mask, of a family or of a scalar.
pub proof fn lemma_no_name_twice(
    t: Tier,
    dim: Option<Dim>,
    s: Scalar,
    d: Dim,
    m: Mask,
    aligned: bool,
)
    ensures
        no_name_twice(dim_context_spec(dim)),
        no_name_twice(mask_impl_context_spec(dim, m)),
        no_name_twice(vec_context_spec(t, dim)),
        no_name_twice(vec_impl_context_spec(t, dim, s, d, aligned)),
        no_name_twice(typed_context_spec(s)),
        no_name_twice(typed_impl_context_spec(s, d, aligned)),
{
    lemma_names_differ();
}

/// Where no name is bound twice, the template finds under each name the
/// value of its binding, and finds no other name.
pub proof fn lemma_bound(c: Seq<BindingView>, n: nat)
    requires
        n <= c.len(),
        no_name_twice(c),
    ensures
        forall|i: int|
            0 <= i < n ==> bound_spec(c, n).contains_key(#[trigger] c[i].key) && bound_spec(
                c,
                n,
            )[c[i].key] == c[i].value,
        forall|k: Seq<char>|
            bound_spec(c, n).contains_key(k) ==> exists|i: int| 0 <= i < n && c[i].key == k,
    decreases n,
{
    if n > 0 {
        lemma_bound(c, (n - 1) as nat);
        assert forall|k: Seq<char>| bound_spec(c, n).contains_key(k) implies exists|i: int|
            0 <= i < n && c[i].key == k by {
            if k == c[n - 1].key {
                assert(c[n - 1].key == k);
            } else {
                assert(bound_spec(c, (n - 1) as nat).contains_key(k));
                let i = choose|i: int| 0 <= i < n - 1 && c[i].key == k;
                assert(0 <= i < n && c[i].key == k);
            }
        }
    }
}

/// The template of the first rendering of the file at `i` in the plan: that
/// of the boolean vector traits in the first three files, that of the vector
/// traits in the others.
pub open spec fn trait_template_spec(i: int) -> Seq<char> {
    if i < 3 {
        "bvec.rs.tera"@
    } else {
        "vec.rs.tera"@
    }
}

/// The plan has thirty-five files, and each begins with the rendering of a
/// trait.
pub proof fn lemma_plan_shape()
    ensures
        plan_spec().len() == 35,
        forall|i: int|
            0 <= i < 35 ==> (#[trigger] plan_spec()[i]).renders.len() >= 1
                && plan_spec()[i].renders[0].template == trait_template_spec(i),
{
    assert forall|i: int| 0 <= i < 35 implies (#[trigger] plan_spec()[i]).renders.len() >= 1
        && plan_spec()[i].renders[0].template == trait_template_spec(i) by {
        if i < 3 {
            assert(plan_spec()[i] == mask_output_spec(mask_file_dims_spec()[i]));
        } else if i < 27 {
            let k = i - 3;
            assert(plan_spec()[i] == vec_output_spec(
                tiers_spec()[k % 6],
                vec_file_dims_spec()[k / 6],
            ));
        } else {
            assert(plan_spec()[i] == typed_output_spec(scalars_spec()[i - 27]));
        }
    }
}


} // verus!
