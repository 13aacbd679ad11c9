//! Field and method descriptors (JVMS 4.3) and their grammar.
//!
//! A field descriptor is up to 255 `[` followed by a base type; a method
//! descriptor is `(`, the parameter field descriptors, `)` and a return type,
//! which is a field descriptor or `V`.  Parsing reads a prefix of the input:
//! characters after a complete descriptor are left unread.

use internship::IStr;
use vstd::prelude::*;
use vstd::std_specs::convert::FromSpecImpl;
use crate::strings::{istr_clone, istr_from_chars, istr_view, str_chars};

verus! {

// ---------------------------------------------------------------------------
// The model
// ---------------------------------------------------------------------------

/// A base type, with the class name of a reference type as characters.
pub enum SpecFieldType {
    Byte,
    Char,
    Double,
    Float,
    Int,
    Long,
    Reference(Seq<char>),
    Short,
    Boolean,
}

/// A base type and its number of array dimensions.
pub struct SpecFieldDescriptor {
    pub base: SpecFieldType,
    pub array_dimensions: u8,
}

/// Parameter types and return type (`None` for `void`).
pub struct SpecMethodDescriptor {
    pub parameters: Seq<SpecFieldDescriptor>,
    pub return_type: Option<SpecFieldDescriptor>,
}

/// Position of the first `;` in `s` at or after `i`.
pub open spec fn semicolon_from(s: Seq<char>, i: int) -> Option<int>
    decreases s.len() - i,
{
    if i < 0 || i >= s.len() {
        None
    } else if s[i] == ';' {
        Some(i)
    } else {
        semicolon_from(s, i + 1)
    }
}

/// The base type that starts at `p`, and the position after it.
///
/// `C` reads as a byte type: that is what this grammar has always produced.
/// A reference type is `L`, a non-empty name without `;`, and `;`.
pub open spec fn spec_parse_type(s: Seq<char>, p: int) -> Option<(SpecFieldType, int)> {
    if p < 0 || p >= s.len() {
        None
    } else {
        let c = s[p];
        if c == 'B' || c == 'C' {
            Some((SpecFieldType::Byte, p + 1))
        } else if c == 'D' {
            Some((SpecFieldType::Double, p + 1))
        } else if c == 'F' {
            Some((SpecFieldType::Float, p + 1))
        } else if c == 'I' {
            Some((SpecFieldType::Int, p + 1))
        } else if c == 'J' {
            Some((SpecFieldType::Long, p + 1))
        } else if c == 'S' {
            Some((SpecFieldType::Short, p + 1))
        } else if c == 'Z' {
            Some((SpecFieldType::Boolean, p + 1))
        } else if c == 'L' {
            match semicolon_from(s, p + 1) {
                Some(e) => if e > p + 1 {
                    Some((SpecFieldType::Reference(s.subrange(p + 1, e)), e + 1))
                } else {
                    None
                },
                None => None,
            }
        } else {
            None
        }
    }
}

/// The number of `[` that start at `p`, counting from `n` and at most 255.
pub open spec fn spec_brackets(s: Seq<char>, p: int, n: int) -> int
    decreases 255 - n,
{
    if 0 <= n < 255 && 0 <= p && p + n < s.len() && s[p + n] == '[' {
        spec_brackets(s, p, n + 1)
    } else {
        n
    }
}

/// The field descriptor that starts at `p`, and the position after it.
pub open spec fn spec_parse_field(s: Seq<char>, p: int) -> Option<(SpecFieldDescriptor, int)> {
    let n = spec_brackets(s, p, 0);
    match spec_parse_type(s, p + n) {
        Some((t, e)) => Some((SpecFieldDescriptor { base: t, array_dimensions: n as u8 }, e)),
        None => None,
    }
}

/// As many field descriptors as follow each other from `p`, and the
/// position after the last of them.
pub open spec fn spec_parse_fields(s: Seq<char>, p: int) -> (Seq<SpecFieldDescriptor>, int)
    decreases s.len() - p,
{
    if 0 <= p < s.len() {
        match spec_parse_field(s, p) {
            Some((d, e)) => if p < e <= s.len() {
                let (rest, end) = spec_parse_fields(s, e);
                (seq![d] + rest, end)
            } else {
                (Seq::empty(), p)
            },
            None => (Seq::empty(), p),
        }
    } else {
        (Seq::empty(), p)
    }
}

/// The return type that starts at `p`: a field descriptor, or `V` for `void`.
pub open spec fn spec_parse_return(s: Seq<char>, p: int) -> Option<(Option<SpecFieldDescriptor>, int)> {
    match spec_parse_field(s, p) {
        Some((d, e)) => Some((Some(d), e)),
        None => if 0 <= p < s.len() && s[p] == 'V' {
            Some((None, p + 1))
        } else {
            None
        },
    }
}

/// The method descriptor that starts at `p`, and the position after it.
pub open spec fn spec_parse_method(s: Seq<char>, p: int) -> Option<(SpecMethodDescriptor, int)> {
    if 0 <= p < s.len() && s[p] == '(' {
        let (params, end) = spec_parse_fields(s, p + 1);
        if end < s.len() && s[end] == ')' {
            match spec_parse_return(s, end + 1) {
                Some((r, e)) => Some((SpecMethodDescriptor { parameters: params, return_type: r }, e)),
                None => None,
            }
        } else {
            None
        }
    } else {
        None
    }
}

/// The field descriptor at the start of `s`, if there is one.
pub open spec fn spec_field_descriptor(s: Seq<char>) -> Option<SpecFieldDescriptor> {
    match spec_parse_field(s, 0) {
        Some((d, _)) => Some(d),
        None => None,
    }
}

/// The method descriptor at the start of `s`, if there is one.
pub open spec fn spec_method_descriptor(s: Seq<char>) -> Option<SpecMethodDescriptor> {
    match spec_parse_method(s, 0) {
        Some((d, _)) => Some(d),
        None => None,
    }
}

/// The base type at the start of `s`, if there is one.
pub open spec fn spec_field_type(s: Seq<char>) -> Option<SpecFieldType> {
    match spec_parse_type(s, 0) {
        Some((t, _)) => Some(t),
        None => None,
    }
}

// ---------------------------------------------------------------------------
// Facts about the grammar
// ---------------------------------------------------------------------------

pub proof fn lemma_semicolon_from(s: Seq<char>, i: int)
    ensures
        semicolon_from(s, i) matches Some(e) ==> 0 <= i <= e < s.len() && s[e] == ';'
            && forall|j: int| i <= j < e ==> s[j] != ';',
        semicolon_from(s, i) is None ==> forall|j: int| 0 <= i <= j < s.len() ==> s[j] != ';',
    decreases s.len() - i,
{
    if 0 <= i < s.len() && s[i] != ';' {
        lemma_semicolon_from(s, i + 1);
    }
}

pub proof fn lemma_brackets(s: Seq<char>, p: int, n: int)
    requires
        0 <= n <= 255,
        0 <= p,
        p + n <= s.len(),
        forall|j: int| p <= j < p + n ==> s[j] == '[',
    ensures
        n <= spec_brackets(s, p, n) <= 255,
        p + spec_brackets(s, p, n) <= s.len(),
        forall|j: int| p <= j < p + spec_brackets(s, p, n) ==> s[j] == '[',
    decreases 255 - n,
{
    if n < 255 && p + n < s.len() && s[p + n] == '[' {
        lemma_brackets(s, p, n + 1);
    }
}

/// A base type, when it parses, takes at least one character and ends
/// within the input.
pub proof fn lemma_parse_type_bounds(s: Seq<char>, p: int)
    ensures
        spec_parse_type(s, p) matches Some((_, e)) ==> 0 <= p < e <= s.len(),
{
    if 0 <= p < s.len() && s[p] == 'L' {
        lemma_semicolon_from(s, p + 1);
    }
}

/// A field descriptor, when it parses, takes at least one character and
/// ends within the input.
pub proof fn lemma_parse_field_bounds(s: Seq<char>, p: int)
    requires
        0 <= p <= s.len(),
    ensures
        spec_parse_field(s, p) matches Some((d, e)) ==> p < e <= s.len() && d.array_dimensions
            == spec_brackets(s, p, 0),
{
    lemma_brackets(s, p, 0);
    lemma_parse_type_bounds(s, p + spec_brackets(s, p, 0));
}

pub proof fn lemma_parse_fields_bounds(s: Seq<char>, p: int)
    requires
        0 <= p <= s.len(),
    ensures
        p <= spec_parse_fields(s, p).1 <= s.len(),
    decreases s.len() - p,
{
    if p < s.len() {
        lemma_parse_field_bounds(s, p);
        if let Some((d, e)) = spec_parse_field(s, p) {
            lemma_parse_fields_bounds(s, e);
        }
    }
}

proof fn lemma_semicolon_extend(s: Seq<char>, t: Seq<char>, i: int)
    requires
        semicolon_from(s, i) is Some,
    ensures
        semicolon_from(s + t, i) == semicolon_from(s, i),
    decreases s.len() - i,
{
    if 0 <= i < s.len() && s[i] != ';' {
        lemma_semicolon_extend(s, t, i + 1);
    }
}

proof fn lemma_parse_type_extend(s: Seq<char>, t: Seq<char>, p: int)
    requires
        spec_parse_type(s, p) is Some,
    ensures
        spec_parse_type(s + t, p) == spec_parse_type(s, p),
{
    if s[p] == 'L' {
        lemma_semicolon_extend(s, t, p + 1);
        let e = semicolon_from(s, p + 1)->0;
        lemma_semicolon_from(s, p + 1);
        assert((s + t).subrange(p + 1, e) =~= s.subrange(p + 1, e));
    }
}

proof fn lemma_brackets_extend(s: Seq<char>, t: Seq<char>, p: int, n: int)
    requires
        0 <= n <= 255,
        0 <= p,
        p + spec_brackets(s, p, n) < s.len(),
    ensures
        spec_brackets(s + t, p, n) == spec_brackets(s, p, n),
    decreases 255 - n,
{
    if 0 <= n < 255 && p + n < s.len() && s[p + n] == '[' {
        lemma_brackets_extend(s, t, p, n + 1);
    }
}

proof fn lemma_parse_field_extend(s: Seq<char>, t: Seq<char>, p: int)
    requires
        0 <= p <= s.len(),
        spec_parse_field(s, p) is Some,
    ensures
        spec_parse_field(s + t, p) == spec_parse_field(s, p),
{
    let n = spec_brackets(s, p, 0);
    lemma_brackets(s, p, 0);
    lemma_parse_type_bounds(s, p + n);
    lemma_brackets_extend(s, t, p, 0);
    lemma_parse_type_extend(s, t, p + n);
}

proof fn lemma_parse_fields_extend(s: Seq<char>, t: Seq<char>, p: int)
    requires
        0 <= p <= s.len(),
        spec_parse_fields(s, p).1 < s.len(),
        s[spec_parse_fields(s, p).1] == ')',
    ensures
        spec_parse_fields(s + t, p) == spec_parse_fields(s, p),
    decreases s.len() - p,
{
    if p < s.len() {
        match spec_parse_field(s, p) {
            Some((d, e)) => {
                lemma_parse_field_bounds(s, p);
                lemma_parse_field_extend(s, t, p);
                lemma_parse_fields_extend(s, t, e);
            },
            None => {
                // `)` starts no field descriptor, in `s` or in `s + t`.
                assert(s[p] == ')');
                lemma_brackets(s + t, p, 0);
                assert(spec_brackets(s + t, p, 0) == 0);
            },
        }
    }
}

/// A field descriptor reads the same whatever follows it.
pub proof fn law_field_descriptor_ignores_rest(s: Seq<char>, t: Seq<char>)
    requires
        spec_field_descriptor(s) is Some,
    ensures
        spec_field_descriptor(s + t) == spec_field_descriptor(s),
{
    lemma_parse_field_extend(s, t, 0);
}

/// A method descriptor reads the same whatever follows it.
pub proof fn law_method_descriptor_ignores_rest(s: Seq<char>, t: Seq<char>)
    requires
        spec_method_descriptor(s) is Some,
    ensures
        spec_method_descriptor(s + t) == spec_method_descriptor(s),
{
    lemma_parse_fields_bounds(s, 1);
    lemma_parse_fields_extend(s, t, 1);
    let end = spec_parse_fields(s, 1).1;
    lemma_parse_fields_bounds(s, 1);
    if spec_parse_field(s, end + 1) is Some {
        lemma_parse_field_extend(s, t, end + 1);
    } else {
        if end + 1 <= s.len() {
            assert(spec_parse_field(s + t, end + 1) is None) by {
                lemma_brackets(s, end + 1, 0);
                assert(s[end + 1] == 'V');
                lemma_brackets(s + t, end + 1, 0);
            }
        }
    }
}

// ---------------------------------------------------------------------------
// The executable types
// ---------------------------------------------------------------------------

/// A base type; a reference type holds the internal name of its class.
#[derive(Debug, Eq, PartialEq)]
pub enum FieldType {
    Byte,
    Char,
    Double,
    Float,
    Int,
    Long,
    Reference(IStr),
    Short,
    Boolean,
}

impl View for FieldType {
    type V = SpecFieldType;

    open spec fn view(&self) -> SpecFieldType {
        match self {
            FieldType::Byte => SpecFieldType::Byte,
            FieldType::Char => SpecFieldType::Char,
            FieldType::Double => SpecFieldType::Double,
            FieldType::Float => SpecFieldType::Float,
            FieldType::Int => SpecFieldType::Int,
            FieldType::Long => SpecFieldType::Long,
            FieldType::Reference(name) => SpecFieldType::Reference(istr_view(*name)),
            FieldType::Short => SpecFieldType::Short,
            FieldType::Boolean => SpecFieldType::Boolean,
        }
    }
}

/// A field descriptor: a base type and its number of array dimensions.
#[derive(Debug, Eq, PartialEq)]
pub struct FieldDescriptor {
    base: FieldType,
    array_dimensions: u8,
}

impl View for FieldDescriptor {
    type V = SpecFieldDescriptor;

    closed spec fn view(&self) -> SpecFieldDescriptor {
        SpecFieldDescriptor { base: self.base@, array_dimensions: self.array_dimensions }
    }
}

/// A method descriptor: parameter types and an optional return type.
#[derive(Debug, Eq, PartialEq)]
pub struct MethodDescriptor {
    parameters: Vec<FieldDescriptor>,
    return_type: Option<FieldDescriptor>,
}

pub open spec fn field_descriptors_view(v: Seq<FieldDescriptor>) -> Seq<SpecFieldDescriptor> {
    v.map_values(|d: FieldDescriptor| d@)
}

pub open spec fn optional_field_descriptor_view(d: Option<FieldDescriptor>) -> Option<SpecFieldDescriptor> {
    match d {
        Some(d) => Some(d@),
        None => None,
    }
}

impl View for MethodDescriptor {
    type V = SpecMethodDescriptor;

    closed spec fn view(&self) -> SpecMethodDescriptor {
        SpecMethodDescriptor {
            parameters: field_descriptors_view(self.parameters@),
            return_type: optional_field_descriptor_view(self.return_type),
        }
    }
}

/// A descriptor of either kind.
#[derive(Debug, Eq, PartialEq)]
pub enum Descriptor {
    Field(FieldDescriptor),
    Method(MethodDescriptor),
}

impl FieldType {
    /// Parses the base type at the start of `input`.
    pub fn parse(input: &str) -> (r: Option<FieldType>)
        ensures
            match r {
                Some(t) => spec_field_type(input@) == Some(t@),
                None => spec_field_type(input@) is None,
            },
    {
        let cs = str_chars(input);
        match parse_type_at(&cs, 0) {
            Some((t, _)) => Some(t),
            None => None,
        }
    }

    /// A copy of this base type.
    pub fn copy(&self) -> (r: FieldType)
        ensures
            r@ == self@,
    {
        match self {
            FieldType::Byte => FieldType::Byte,
            FieldType::Char => FieldType::Char,
            FieldType::Double => FieldType::Double,
            FieldType::Float => FieldType::Float,
            FieldType::Int => FieldType::Int,
            FieldType::Long => FieldType::Long,
            FieldType::Reference(name) => FieldType::Reference(istr_clone(name)),
            FieldType::Short => FieldType::Short,
            FieldType::Boolean => FieldType::Boolean,
        }
    }
}

impl FieldDescriptor {
    /// Parses the field descriptor at the start of `input`.
    pub fn parse(input: &str) -> (r: Option<FieldDescriptor>)
        ensures
            match r {
                Some(d) => spec_field_descriptor(input@) == Some(d@),
                None => spec_field_descriptor(input@) is None,
            },
    {
        let cs = str_chars(input);
        match parse_field_at(&cs, 0) {
            Some((d, _)) => Some(d),
            None => None,
        }
    }

    pub fn new(base: FieldType, array_dimensions: u8) -> (r: FieldDescriptor)
        ensures
            r@ == (SpecFieldDescriptor { base: base@, array_dimensions }),
    {
        FieldDescriptor { base, array_dimensions }
    }

    pub fn base(&self) -> (r: &FieldType)
        ensures
            r@ == self@.base,
    {
        &self.base
    }

    pub fn array_dimensions(&self) -> (r: u8)
        ensures
            r == self@.array_dimensions,
    {
        self.array_dimensions
    }

    /// A copy of this descriptor.
    pub fn copy(&self) -> (r: FieldDescriptor)
        ensures
            r@ == self@,
    {
        FieldDescriptor { base: self.base.copy(), array_dimensions: self.array_dimensions }
    }
}

impl MethodDescriptor {
    /// Parses the method descriptor at the start of `input`.
    pub fn parse(input: &str) -> (r: Option<MethodDescriptor>)
        ensures
            match r {
                Some(d) => spec_method_descriptor(input@) == Some(d@),
                None => spec_method_descriptor(input@) is None,
            },
    {
        let cs = str_chars(input);
        match parse_method_at(&cs, 0) {
            Some((d, _)) => Some(d),
            None => None,
        }
    }

    pub fn new(parameters: Vec<FieldDescriptor>, return_type: Option<FieldDescriptor>) -> (r: MethodDescriptor)
        ensures
            r@ == (SpecMethodDescriptor {
                parameters: field_descriptors_view(parameters@),
                return_type: optional_field_descriptor_view(return_type),
            }),
    {
        MethodDescriptor { parameters, return_type }
    }

    pub fn parameters(&self) -> (r: &[FieldDescriptor])
        ensures
            field_descriptors_view(r@) == self@.parameters,
    {
        self.parameters.as_slice()
    }

    pub fn return_type(&self) -> (r: Option<&FieldDescriptor>)
        ensures
            match r {
                Some(d) => self@.return_type == Some(d@),
                None => self@.return_type is None,
            },
    {
        match &self.return_type {
            Some(d) => Some(d),
            None => None,
        }
    }
}

impl Descriptor {
    /// A field descriptor as a descriptor.
    pub fn from_field(value: FieldDescriptor) -> (r: Descriptor)
        ensures
            r == Descriptor::Field(value),
    {
        Descriptor::Field(value)
    }

    /// A method descriptor as a descriptor.
    pub fn from_method(value: MethodDescriptor) -> (r: Descriptor)
        ensures
            r == Descriptor::Method(value),
    {
        Descriptor::Method(value)
    }
}

/// A base type is a descriptor with no array dimensions.
impl From<FieldType> for FieldDescriptor {
    fn from(value: FieldType) -> (r: FieldDescriptor)
        ensures
            r@ == (SpecFieldDescriptor { base: value@, array_dimensions: 0 }),
    {
        FieldDescriptor { base: value, array_dimensions: 0 }
    }
}

impl FromSpecImpl<FieldType> for FieldDescriptor {
    open spec fn obeys_from_spec() -> bool {
        true
    }

    closed spec fn from_spec(value: FieldType) -> FieldDescriptor {
        FieldDescriptor { base: value, array_dimensions: 0 }
    }
}

impl From<FieldDescriptor> for Descriptor {
    fn from(value: FieldDescriptor) -> (r: Descriptor) {
        Descriptor::from_field(value)
    }
}

impl FromSpecImpl<FieldDescriptor> for Descriptor {
    open spec fn obeys_from_spec() -> bool {
        true
    }

    open spec fn from_spec(value: FieldDescriptor) -> Descriptor {
        Descriptor::Field(value)
    }
}

impl From<MethodDescriptor> for Descriptor {
    fn from(value: MethodDescriptor) -> (r: Descriptor) {
        Descriptor::from_method(value)
    }
}

impl FromSpecImpl<MethodDescriptor> for Descriptor {
    open spec fn obeys_from_spec() -> bool {
        true
    }

    open spec fn from_spec(value: MethodDescriptor) -> Descriptor {
        Descriptor::Method(value)
    }
}

// ---------------------------------------------------------------------------
// The parser
// ---------------------------------------------------------------------------

fn parse_type_at(cs: &Vec<char>, p: usize) -> (r: Option<(FieldType, usize)>)
    requires
        p <= cs.len(),
    ensures
        match r {
            Some((t, e)) => spec_parse_type(cs@, p as int) == Some((t@, e as int)),
            None => spec_parse_type(cs@, p as int) is None,
        },
{
    if p >= cs.len() {
        return None;
    }
    let c = cs[p];
    if c == 'B' || c == 'C' {
        Some((FieldType::Byte, p + 1))
    } else if c == 'D' {
        Some((FieldType::Double, p + 1))
    } else if c == 'F' {
        Some((FieldType::Float, p + 1))
    } else if c == 'I' {
        Some((FieldType::Int, p + 1))
    } else if c == 'J' {
        Some((FieldType::Long, p + 1))
    } else if c == 'S' {
        Some((FieldType::Short, p + 1))
    } else if c == 'Z' {
        Some((FieldType::Boolean, p + 1))
    } else if c == 'L' {
        let mut e = p + 1;
        while e < cs.len() && cs[e] != ';'
            invariant
                p + 1 <= e <= cs.len(),
                semicolon_from(cs@, p + 1) == semicolon_from(cs@, e as int),
            decreases cs.len() - e,
        {
            e = e + 1;
        }
        if e >= cs.len() || e == p + 1 {
            return None;
        }
        let mut name: Vec<char> = Vec::new();
        let mut i = p + 1;
        while i < e
            invariant
                p + 1 <= i <= e < cs.len(),
                name@ == cs@.subrange(p + 1, i as int),
            decreases e - i,
        {
            name.push(cs[i]);
            i = i + 1;
            assert(name@ =~= cs@.subrange(p + 1, i as int));
        }
        let s = istr_from_chars(name.as_slice());
        Some((FieldType::Reference(s), e + 1))
    } else {
        None
    }
}

fn parse_field_at(cs: &Vec<char>, p: usize) -> (r: Option<(FieldDescriptor, usize)>)
    requires
        p <= cs.len(),
    ensures
        match r {
            Some((d, e)) => spec_parse_field(cs@, p as int) == Some((d@, e as int)),
            None => spec_parse_field(cs@, p as int) is None,
        },
{
    let mut n: usize = 0;
    while n < 255 && n < cs.len() - p && cs[p + n] == '['
        invariant
            n <= 255,
            p + n <= cs.len(),
            spec_brackets(cs@, p as int, 0) == spec_brackets(cs@, p as int, n as int),
        decreases 255 - n,
    {
        n = n + 1;
    }
    match parse_type_at(cs, p + n) {
        Some((t, e)) => Some((FieldDescriptor { base: t, array_dimensions: n as u8 }, e)),
        None => None,
    }
}

fn parse_method_at(cs: &Vec<char>, p: usize) -> (r: Option<(MethodDescriptor, usize)>)
    requires
        p <= cs.len(),
    ensures
        match r {
            Some((d, e)) => spec_parse_method(cs@, p as int) == Some((d@, e as int)),
            None => spec_parse_method(cs@, p as int) is None,
        },
{
    if p >= cs.len() || cs[p] != '(' {
        return None;
    }
    let ghost s = cs@;
    let mut params: Vec<FieldDescriptor> = Vec::new();
    let mut q = p + 1;
    proof {
        lemma_parse_fields_bounds(s, q as int);
    }
    // The parameters read so far, followed by those that the grammar reads from `q`.
    loop
        invariant
            p + 1 <= q <= cs.len(),
            s == cs@,
            ({
                let (all, end) = spec_parse_fields(s, p + 1);
                let (rest, end2) = spec_parse_fields(s, q as int);
                all == field_descriptors_view(params@) + rest && end == end2
            }),
        ensures
            p + 1 <= q <= cs.len(),
            s == cs@,
            ({
                let (all, end) = spec_parse_fields(s, p + 1);
                let (rest, end2) = spec_parse_fields(s, q as int);
                all == field_descriptors_view(params@) + rest && end == end2
            }),
            q >= cs.len() || spec_parse_field(s, q as int) is None,
        decreases cs.len() - q,
    {
        if q >= cs.len() {
            break;
        }
        proof {
            lemma_parse_field_bounds(s, q as int);
        }
        match parse_field_at(cs, q) {
            Some((d, e)) => {
                let ghost old_params = params@;
                params.push(d);
                proof {
                    assert(field_descriptors_view(params@) =~= field_descriptors_view(old_params)
                        + seq![d@]);
                    let (rest, _) = spec_parse_fields(s, e as int);
                    assert(seq![d@] + rest =~= seq![d@] + rest);
                    assert(field_descriptors_view(old_params) + (seq![d@] + rest)
                        =~= field_descriptors_view(params@) + rest);
                }
                q = e;
            },
            None => {
                break;
            },
        }
    }
    proof {
        let (rest, end2) = spec_parse_fields(s, q as int);
        assert(rest =~= Seq::<SpecFieldDescriptor>::empty());
        assert(field_descriptors_view(params@) + rest =~= field_descriptors_view(params@));
    }
    if q >= cs.len() || cs[q] != ')' {
        return None;
    }
    let r = q + 1;
    match parse_field_at(cs, r) {
        Some((d, e)) => Some((MethodDescriptor { parameters: params, return_type: Some(d) }, e)),
        None => {
            if r < cs.len() && cs[r] == 'V' {
                Some((MethodDescriptor { parameters: params, return_type: None }, r + 1))
            } else {
                None
            }
        },
    }
}

} // verus!
