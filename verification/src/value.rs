//! The dynamic value model: recursive tagged values decoded from a source,
//! and their conversion into the column bindings a batched write carries.

use vstd::prelude::*;

verus! {

broadcast use vstd::seq::axiom_seq_index_decreases, vstd::seq::axiom_seq_subrange_decreases, vstd::std_specs::vec::axiom_vec_decreases_to_view, vstd::std_specs::vec::axiom_vec_index_decreases;

/// One decoded value: a recursive tagged union over the shapes that a
/// line-oriented source can produce. A whole record is a `Mapping` at the
/// top level. Values are immutable once constructed.
#[derive(Debug)]
pub enum DataValue {
    /// An explicit null in the input.
    Null,
    Bool(bool),
    /// An integer the decoder saw as non-negative (unsigned 64-bit range).
    UInt(u64),
    /// An integer the decoder saw as negative.
    Int(i64),
    /// The IEEE-754 bit pattern of a 64-bit floating-point value; the
    /// pipeline never computes with it, it only hands the bits through.
    Float(u64),
    Text(String),
    Sequence(Vec<DataValue>),
    /// Ordered field-name-to-value pairs, in the order the decoder met them.
    Mapping(Vec<(String, DataValue)>),
}

/// The mathematical shape of a `DataValue`.
#[verifier::ext_equal]
pub enum ValueModel {
    Null,
    Bool(bool),
    UInt(u64),
    Int(i64),
    Float(u64),
    Text(Seq<char>),
    Sequence(Seq<ValueModel>),
    Mapping(Seq<(Seq<char>, ValueModel)>),
}

pub open spec fn value_model(v: DataValue) -> ValueModel
    decreases v,
{
    match v {
        DataValue::Null => ValueModel::Null,
        DataValue::Bool(b) => ValueModel::Bool(b),
        DataValue::UInt(u) => ValueModel::UInt(u),
        DataValue::Int(i) => ValueModel::Int(i),
        DataValue::Float(bits) => ValueModel::Float(bits),
        DataValue::Text(s) => ValueModel::Text(s@),
        DataValue::Sequence(items) => ValueModel::Sequence(value_model_seq(items@)),
        DataValue::Mapping(fields) => ValueModel::Mapping(field_models(fields@)),
    }
}

pub open spec fn value_model_seq(s: Seq<DataValue>) -> Seq<ValueModel>
    decreases s,
{
    if s.len() == 0 {
        Seq::empty()
    } else {
        value_model_seq(s.subrange(0, s.len() - 1)).push(value_model(s[s.len() - 1]))
    }
}

pub open spec fn field_models(s: Seq<(String, DataValue)>) -> Seq<(Seq<char>, ValueModel)>
    decreases s,
{
    if s.len() == 0 {
        Seq::empty()
    } else {
        field_models(s.subrange(0, s.len() - 1)).push(
            (s[s.len() - 1].0@, value_model(s[s.len() - 1].1)),
        )
    }
}

impl View for DataValue {
    type V = ValueModel;

    open spec fn view(&self) -> ValueModel {
        value_model(*self)
    }
}

/// One value converted into the store's typed wire representation for a
/// column. There is deliberately no explicit-null variant: a null input
/// becomes `Unset`, which omits the column from the write and leaves a
/// previously stored value untouched.
#[derive(Debug)]
pub enum ColumnBinding {
    /// Omit this column from the write.
    Unset,
    Boolean(bool),
    /// The signed 64-bit column representation of any integer input.
    BigInt(i64),
    /// The IEEE-754 bit pattern of a 64-bit floating-point column value.
    Double(u64),
    Text(String),
    List(Vec<ColumnBinding>),
    Mapping(Vec<(String, ColumnBinding)>),
}

/// The mathematical shape of a `ColumnBinding`.
#[verifier::ext_equal]
pub enum BindingModel {
    Unset,
    Boolean(bool),
    BigInt(i64),
    Double(u64),
    Text(Seq<char>),
    List(Seq<BindingModel>),
    Mapping(Seq<(Seq<char>, BindingModel)>),
}

pub open spec fn binding_model(c: ColumnBinding) -> BindingModel
    decreases c,
{
    match c {
        ColumnBinding::Unset => BindingModel::Unset,
        ColumnBinding::Boolean(b) => BindingModel::Boolean(b),
        ColumnBinding::BigInt(i) => BindingModel::BigInt(i),
        ColumnBinding::Double(bits) => BindingModel::Double(bits),
        ColumnBinding::Text(s) => BindingModel::Text(s@),
        ColumnBinding::List(items) => BindingModel::List(binding_model_seq(items@)),
        ColumnBinding::Mapping(fields) => BindingModel::Mapping(binding_field_models(fields@)),
    }
}

pub open spec fn binding_model_seq(s: Seq<ColumnBinding>) -> Seq<BindingModel>
    decreases s,
{
    if s.len() == 0 {
        Seq::empty()
    } else {
        binding_model_seq(s.subrange(0, s.len() - 1)).push(binding_model(s[s.len() - 1]))
    }
}

pub open spec fn binding_field_models(s: Seq<(String, ColumnBinding)>) -> Seq<
    (Seq<char>, BindingModel),
>
    decreases s,
{
    if s.len() == 0 {
        Seq::empty()
    } else {
        binding_field_models(s.subrange(0, s.len() - 1)).push(
            (s[s.len() - 1].0@, binding_model(s[s.len() - 1].1)),
        )
    }
}

impl View for ColumnBinding {
    type V = BindingModel;

    open spec fn view(&self) -> BindingModel {
        binding_model(*self)
    }
}

/// The signed 64-bit column value that stands for an unsigned 64-bit
/// integer: its two's-complement reinterpretation. Values above
/// `i64::MAX` deliberately wrap; this reproduces the store's numeric
/// coercion rule for large unsigned inputs.
pub open spec fn wrap_to_i64(u: u64) -> i64 {
    if u <= (i64::MAX as u64) {
        u as i64
    } else {
        ((u as int) - 0x1_0000_0000_0000_0000) as i64
    }
}

/// What each value becomes as a column binding: null becomes the unset
/// sentinel, integers are coerced to the signed 64-bit column type, and
/// sequences and mappings convert element-wise.
pub open spec fn column_binding_of(v: ValueModel) -> BindingModel
    decreases v,
{
    match v {
        ValueModel::Null => BindingModel::Unset,
        ValueModel::Bool(b) => BindingModel::Boolean(b),
        ValueModel::UInt(u) => BindingModel::BigInt(wrap_to_i64(u)),
        ValueModel::Int(i) => BindingModel::BigInt(i),
        ValueModel::Float(bits) => BindingModel::Double(bits),
        ValueModel::Text(s) => BindingModel::Text(s),
        ValueModel::Sequence(items) => BindingModel::List(column_bindings_of(items)),
        ValueModel::Mapping(fields) => BindingModel::Mapping(field_bindings_of(fields)),
    }
}

pub open spec fn column_bindings_of(s: Seq<ValueModel>) -> Seq<BindingModel>
    decreases s,
{
    if s.len() == 0 {
        Seq::empty()
    } else {
        column_bindings_of(s.subrange(0, s.len() - 1)).push(column_binding_of(s[s.len() - 1]))
    }
}

pub open spec fn field_bindings_of(s: Seq<(Seq<char>, ValueModel)>) -> Seq<
    (Seq<char>, BindingModel),
>
    decreases s,
{
    if s.len() == 0 {
        Seq::empty()
    } else {
        field_bindings_of(s.subrange(0, s.len() - 1)).push(
            (s[s.len() - 1].0, column_binding_of(s[s.len() - 1].1)),
        )
    }
}

pub proof fn lemma_value_model_seq_push(s: Seq<DataValue>, x: DataValue)
    ensures
        value_model_seq(s.push(x)) == value_model_seq(s).push(value_model(x)),
{
    assert(s.push(x).subrange(0, s.push(x).len() - 1) =~= s);
    assert(s.push(x)[s.push(x).len() - 1] == x);
}

pub proof fn lemma_field_models_push(s: Seq<(String, DataValue)>, x: (String, DataValue))
    ensures
        field_models(s.push(x)) == field_models(s).push((x.0@, value_model(x.1))),
{
    assert(s.push(x).subrange(0, s.push(x).len() - 1) =~= s);
    assert(s.push(x)[s.push(x).len() - 1] == x);
}

pub proof fn lemma_binding_model_seq_push(s: Seq<ColumnBinding>, x: ColumnBinding)
    ensures
        binding_model_seq(s.push(x)) == binding_model_seq(s).push(binding_model(x)),
{
    assert(s.push(x).subrange(0, s.push(x).len() - 1) =~= s);
    assert(s.push(x)[s.push(x).len() - 1] == x);
}

pub proof fn lemma_binding_field_models_push(s: Seq<(String, ColumnBinding)>, x: (String, ColumnBinding))
    ensures
        binding_field_models(s.push(x)) == binding_field_models(s).push((x.0@, binding_model(x.1))),
{
    assert(s.push(x).subrange(0, s.push(x).len() - 1) =~= s);
    assert(s.push(x)[s.push(x).len() - 1] == x);
}

pub proof fn lemma_column_bindings_push(s: Seq<ValueModel>, x: ValueModel)
    ensures
        column_bindings_of(s.push(x)) == column_bindings_of(s).push(column_binding_of(x)),
{
    assert(s.push(x).subrange(0, s.push(x).len() - 1) =~= s);
    assert(s.push(x)[s.push(x).len() - 1] == x);
}

pub proof fn lemma_field_bindings_push(s: Seq<(Seq<char>, ValueModel)>, x: (Seq<char>, ValueModel))
    ensures
        field_bindings_of(s.push(x)) == field_bindings_of(s).push((x.0, column_binding_of(x.1))),
{
    assert(s.push(x).subrange(0, s.push(x).len() - 1) =~= s);
    assert(s.push(x)[s.push(x).len() - 1] == x);
}

pub proof fn lemma_value_model_seq_props(s: Seq<DataValue>)
    ensures
        value_model_seq(s).len() == s.len(),
        forall|i: int| 0 <= i < s.len() ==> value_model_seq(s)[i] == value_model(s[i]),
    decreases s,
{
    if s.len() > 0 {
        lemma_value_model_seq_props(s.subrange(0, s.len() - 1));
    }
}

pub proof fn lemma_field_models_props(s: Seq<(String, DataValue)>)
    ensures
        field_models(s).len() == s.len(),
        forall|i: int|
            0 <= i < s.len() ==> field_models(s)[i] == (s[i].0@, value_model(s[i].1)),
    decreases s,
{
    if s.len() > 0 {
        lemma_field_models_props(s.subrange(0, s.len() - 1));
    }
}

/// The wrapped signed value, computed without ever overflowing: a value
/// above `i64::MAX` comes out as its two's-complement reinterpretation.
pub fn wrap_u64(u: u64) -> (r: i64)
    ensures
        r == wrap_to_i64(u),
{
    if u <= 0x7fff_ffff_ffff_ffff {
        u as i64
    } else {
        let d: u64 = u64::MAX - u;
        let r: i64 = -(d as i64) - 1;
        proof {
            assert(r as int == (u as int) - 0x1_0000_0000_0000_0000);
        }
        r
    }
}

impl DataValue {
    /// Convert one value into its column binding: pure, total, and
    /// element-wise recursive on sequences and mappings.
    #[verifier::loop_isolation(false)]
    pub fn to_column_binding(&self) -> (r: ColumnBinding)
        ensures
            r@ == column_binding_of(self@),
        decreases *self,
    {
        match self {
            DataValue::Null => ColumnBinding::Unset,
            DataValue::Bool(b) => ColumnBinding::Boolean(*b),
            DataValue::UInt(u) => ColumnBinding::BigInt(wrap_u64(*u)),
            DataValue::Int(i) => ColumnBinding::BigInt(*i),
            DataValue::Float(bits) => ColumnBinding::Double(*bits),
            DataValue::Text(s) => ColumnBinding::Text(s.clone()),
            DataValue::Sequence(items) => {
                let mut out: Vec<ColumnBinding> = Vec::new();
                let mut i: usize = 0;
                while i < items.len()
                    invariant
                        i <= items@.len(),
                        binding_model_seq(out@) == column_bindings_of(
                            value_model_seq(items@.subrange(0, i as int)),
                        ),
                    decreases items@.len() - i,
                {
                    let c = items[i].to_column_binding();
                    proof {
                        lemma_binding_model_seq_push(out@, c);
                        lemma_value_model_seq_push(
                            items@.subrange(0, i as int),
                            items@[i as int],
                        );
                        lemma_column_bindings_push(
                            value_model_seq(items@.subrange(0, i as int)),
                            value_model(items@[i as int]),
                        );
                        assert(items@.subrange(0, i as int).push(items@[i as int])
                            =~= items@.subrange(0, i as int + 1));
                    }
                    out.push(c);
                    i = i + 1;
                }
                proof {
                    assert(items@.subrange(0, items@.len() as int) =~= items@);
                }
                ColumnBinding::List(out)
            },
            DataValue::Mapping(fields) => {
                let mut out: Vec<(String, ColumnBinding)> = Vec::new();
                let mut i: usize = 0;
                while i < fields.len()
                    invariant
                        i <= fields@.len(),
                        binding_field_models(out@) == field_bindings_of(
                            field_models(fields@.subrange(0, i as int)),
                        ),
                    decreases fields@.len() - i,
                {
                    let name = fields[i].0.clone();
                    let c = fields[i].1.to_column_binding();
                    proof {
                        lemma_binding_field_models_push(out@, (name, c));
                        lemma_field_models_push(
                            fields@.subrange(0, i as int),
                            fields@[i as int],
                        );
                        lemma_field_bindings_push(
                            field_models(fields@.subrange(0, i as int)),
                            (fields@[i as int].0@, value_model(fields@[i as int].1)),
                        );
                        assert(fields@.subrange(0, i as int).push(fields@[i as int])
                            =~= fields@.subrange(0, i as int + 1));
                    }
                    out.push((name, c));
                    i = i + 1;
                }
                proof {
                    assert(fields@.subrange(0, fields@.len() as int) =~= fields@);
                }
                ColumnBinding::Mapping(out)
            },
        }
    }
}

/// A null value always binds to the unset sentinel, never to an explicit
/// column null: no binding for an explicit null exists at all, so an
/// upsert that carries a null input leaves the stored column untouched.
pub proof fn lemma_null_binds_to_unset(v: DataValue)
    requires
        v@ is Null,
    ensures
        column_binding_of(v@) is Unset,
{
}

impl DataValue {
    /// Structural equality of two decoded values, decided recursively.
    #[verifier::loop_isolation(false)]
    pub fn deep_eq(&self, other: &DataValue) -> (r: bool)
        ensures
            r == (self@ == other@),
        decreases *self,
    {
        match (self, other) {
            (DataValue::Null, DataValue::Null) => true,
            (DataValue::Bool(x), DataValue::Bool(y)) => *x == *y,
            (DataValue::UInt(x), DataValue::UInt(y)) => *x == *y,
            (DataValue::Int(x), DataValue::Int(y)) => *x == *y,
            (DataValue::Float(x), DataValue::Float(y)) => *x == *y,
            (DataValue::Text(x), DataValue::Text(y)) => *x == *y,
            (DataValue::Sequence(x), DataValue::Sequence(y)) => {
                proof {
                    lemma_value_model_seq_props(x@);
                    lemma_value_model_seq_props(y@);
                }
                if x.len() != y.len() {
                    return false;
                }
                let mut i: usize = 0;
                while i < x.len()
                    invariant
                        i <= x@.len(),
                        forall|j: int| 0 <= j < i ==> value_model(x@[j]) == value_model(y@[j]),
                    decreases x@.len() - i,
                {
                    if !x[i].deep_eq(&y[i]) {
                        proof {
                            assert(value_model_seq(x@)[i as int] != value_model_seq(y@)[i as int]);
                        }
                        return false;
                    }
                    i = i + 1;
                }
                proof {
                    assert(value_model_seq(x@) =~= value_model_seq(y@));
                }
                true
            },
            (DataValue::Mapping(x), DataValue::Mapping(y)) => {
                proof {
                    lemma_field_models_props(x@);
                    lemma_field_models_props(y@);
                }
                if x.len() != y.len() {
                    return false;
                }
                let mut i: usize = 0;
                while i < x.len()
                    invariant
                        i <= x@.len(),
                        forall|j: int|
                            0 <= j < i ==> x@[j].0@ == y@[j].0@ && value_model(x@[j].1)
                                == value_model(y@[j].1),
                    decreases x@.len() - i,
                {
                    if x[i].0 != y[i].0 {
                        proof {
                            assert(field_models(x@)[i as int] != field_models(y@)[i as int]);
                        }
                        return false;
                    }
                    if !x[i].1.deep_eq(&y[i].1) {
                        proof {
                            assert(field_models(x@)[i as int] != field_models(y@)[i as int]);
                        }
                        return false;
                    }
                    i = i + 1;
                }
                proof {
                    assert(field_models(x@) =~= field_models(y@));
                }
                true
            },
            _ => false,
        }
    }
}

} // verus!
