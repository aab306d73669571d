//! The store writer's verified core: deriving the schema once from the
//! first record, building the parameterized insert statement for it, and
//! turning each record of a batch into column bindings in schema order.

use vstd::prelude::*;

use crate::value::{
    binding_model_seq, column_binding_of, field_models, lemma_binding_model_seq_push,
    lemma_field_models_props, ColumnBinding, DataValue, ValueModel,
};

verus! {

/// Why a batch is refused before it reaches the store. Such an error
/// fails that batch alone, not the run.
#[derive(Clone, Copy, Debug, PartialEq, Eq, Structural)]
pub enum WriteError {
    /// The first record of the first non-empty batch is not a field
    /// mapping, so no schema can be derived.
    SchemaUnderivable,
    /// A record's field set does not match the cached schema.
    FieldSetMismatch,
}

/// The views of a list of owned field names.
pub open spec fn names_of(names: Seq<String>) -> Seq<Seq<char>> {
    names.map_values(|s: String| s@)
}

/// The parts joined with the separator between each two of them.
pub open spec fn spec_join(parts: Seq<Seq<char>>, sep: Seq<char>) -> Seq<char>
    decreases parts,
{
    if parts.len() == 0 {
        Seq::empty()
    } else if parts.len() == 1 {
        parts[0]
    } else {
        spec_join(parts.subrange(0, parts.len() - 1), sep) + sep + parts[parts.len() - 1]
    }
}

pub proof fn lemma_spec_join_push(parts: Seq<Seq<char>>, x: Seq<char>, sep: Seq<char>)
    ensures
        spec_join(parts.push(x), sep) == if parts.len() == 0 {
            x
        } else {
            spec_join(parts, sep) + sep + x
        },
{
    assert(parts.push(x).subrange(0, parts.push(x).len() - 1) =~= parts);
    assert(parts.push(x)[parts.push(x).len() - 1] == x);
}

/// Each field name turned into its named placeholder, a leading colon.
pub open spec fn spec_placeholders(fields: Seq<Seq<char>>) -> Seq<Seq<char>> {
    fields.map_values(|f: Seq<char>| ":"@ + f)
}

/// The one prepared statement of a run: a parameterized insert naming
/// every schema field once, with one named placeholder per field.
pub open spec fn spec_insert_statement(
    keyspace: Seq<char>,
    table: Seq<char>,
    fields: Seq<Seq<char>>,
) -> Seq<char> {
    "INSERT INTO "@ + keyspace + "."@ + table + " ("@ + spec_join(fields, ", "@)
        + ") VALUES ("@ + spec_join(spec_placeholders(fields), ", "@) + ")"@
}

/// The field names joined with the separator.
#[verifier::loop_isolation(false)]
fn join_names(parts: &Vec<String>, sep: &str) -> (r: String)
    ensures
        r@ == spec_join(names_of(parts@), sep@),
{
    let mut out = String::new();
    let mut i: usize = 0;
    while i < parts.len()
        invariant
            i <= parts@.len(),
            out@ == spec_join(names_of(parts@).subrange(0, i as int), sep@),
        decreases parts@.len() - i,
    {
        proof {
            lemma_spec_join_push(
                names_of(parts@).subrange(0, i as int),
                names_of(parts@)[i as int],
                sep@,
            );
            assert(names_of(parts@).subrange(0, i as int).push(names_of(parts@)[i as int])
                =~= names_of(parts@).subrange(0, i as int + 1));
        }
        if i > 0 {
            out.append(sep);
        }
        out.append(parts[i].as_str());
        proof {
            assert(out@ =~= spec_join(names_of(parts@).subrange(0, i as int + 1), sep@));
        }
        i = i + 1;
    }
    proof {
        assert(names_of(parts@).subrange(0, parts@.len() as int) =~= names_of(parts@));
    }
    out
}

/// The field placeholders joined with the separator.
#[verifier::loop_isolation(false)]
fn join_placeholders(parts: &Vec<String>, sep: &str) -> (r: String)
    ensures
        r@ == spec_join(spec_placeholders(names_of(parts@)), sep@),
{
    let mut out = String::new();
    let mut i: usize = 0;
    while i < parts.len()
        invariant
            i <= parts@.len(),
            out@ == spec_join(spec_placeholders(names_of(parts@)).subrange(0, i as int), sep@),
        decreases parts@.len() - i,
    {
        proof {
            lemma_spec_join_push(
                spec_placeholders(names_of(parts@)).subrange(0, i as int),
                spec_placeholders(names_of(parts@))[i as int],
                sep@,
            );
            assert(spec_placeholders(names_of(parts@)).subrange(0, i as int).push(
                spec_placeholders(names_of(parts@))[i as int],
            ) =~= spec_placeholders(names_of(parts@)).subrange(0, i as int + 1));
        }
        if i > 0 {
            out.append(sep);
        }
        out.append(":");
        out.append(parts[i].as_str());
        proof {
            assert(out@ =~= spec_join(
                spec_placeholders(names_of(parts@)).subrange(0, i as int + 1),
                sep@,
            ));
        }
        i = i + 1;
    }
    proof {
        assert(spec_placeholders(names_of(parts@)).subrange(0, parts@.len() as int)
            =~= spec_placeholders(names_of(parts@)));
    }
    out
}

/// Build the parameterized insert statement for a schema.
pub fn insert_statement(keyspace: &str, table: &str, fields: &Vec<String>) -> (r: String)
    ensures
        r@ == spec_insert_statement(keyspace@, table@, names_of(fields@)),
{
    let mut out = String::new();
    out.append("INSERT INTO ");
    out.append(keyspace);
    out.append(".");
    out.append(table);
    out.append(" (");
    let joined_names = join_names(fields, ", ");
    out.append(joined_names.as_str());
    out.append(") VALUES (");
    let joined_placeholders = join_placeholders(fields, ", ");
    out.append(joined_placeholders.as_str());
    out.append(")");
    proof {
        assert(out@ =~= spec_insert_statement(keyspace@, table@, names_of(fields@)));
    }
    out
}

/// The fields of a record value; an empty sequence for anything that is
/// not a mapping.
pub open spec fn mapping_fields(v: ValueModel) -> Seq<(Seq<char>, ValueModel)> {
    match v {
        ValueModel::Mapping(fields) => fields,
        _ => Seq::empty(),
    }
}

/// The field names of a record, in its own enumeration order.
pub open spec fn record_keys(fields: Seq<(Seq<char>, ValueModel)>) -> Seq<Seq<char>> {
    fields.map_values(|p: (Seq<char>, ValueModel)| p.0)
}

/// The first field of that name, searched front to back.
pub open spec fn lookup_field(
    fields: Seq<(Seq<char>, ValueModel)>,
    name: Seq<char>,
) -> Option<ValueModel>
    decreases fields,
{
    if fields.len() == 0 {
        None
    } else if fields[0].0 == name {
        Some(fields[0].1)
    } else {
        lookup_field(fields.subrange(1, fields.len() as int), name)
    }
}

/// A record fits the cached schema when it is a mapping with exactly as
/// many fields as the schema and every schema field name is present.
pub open spec fn record_matches_schema(rec: ValueModel, schema: Seq<Seq<char>>) -> bool {
    &&& rec is Mapping
    &&& mapping_fields(rec).len() == schema.len()
    &&& forall|i: int|
        0 <= i < schema.len() ==> lookup_field(mapping_fields(rec), #[trigger] schema[i]) is Some
}

/// The column bindings of one record, one per schema field, in schema
/// order.
pub open spec fn spec_bound_row(
    fields: Seq<(Seq<char>, ValueModel)>,
    schema: Seq<Seq<char>>,
) -> Seq<crate::value::BindingModel> {
    Seq::new(schema.len(), |i: int| column_binding_of(lookup_field(fields, schema[i]).unwrap()))
}

/// Find a field of the record by name, front to back.
#[verifier::loop_isolation(false)]
fn lookup_record_field<'a>(fields: &'a Vec<(String, DataValue)>, name: &String) -> (r: Option<
    &'a DataValue,
>)
    ensures
        match r {
            Some(v) => lookup_field(field_models(fields@), name@) == Some(v@),
            None => lookup_field(field_models(fields@), name@) is None,
        },
{
    proof {
        lemma_field_models_props(fields@);
        assert(field_models(fields@).subrange(0, fields@.len() as int) =~= field_models(fields@));
    }
    let mut i: usize = 0;
    while i < fields.len()
        invariant
            i <= fields@.len(),
            lookup_field(field_models(fields@), name@) == lookup_field(
                field_models(fields@).subrange(i as int, fields@.len() as int),
                name@,
            ),
        decreases fields@.len() - i,
    {
        proof {
            assert(field_models(fields@).subrange(i as int, fields@.len() as int)[0]
                == field_models(fields@)[i as int]);
            assert(field_models(fields@).subrange(i as int, fields@.len() as int).subrange(
                1,
                field_models(fields@).subrange(i as int, fields@.len() as int).len() as int,
            ) =~= field_models(fields@).subrange(i as int + 1, fields@.len() as int));
        }
        if fields[i].0 == *name {
            return Some(&fields[i].1);
        }
        i = i + 1;
    }
    proof {
        assert(field_models(fields@).subrange(fields@.len() as int, fields@.len() as int).len()
            == 0);
    }
    None
}

/// Bind one record against the schema: one column binding per schema
/// field, in schema order; a record whose field set does not match the
/// schema is refused whole.
#[verifier::loop_isolation(false)]
pub fn bind_record(schema: &Vec<String>, record: &DataValue) -> (r: Result<
    Vec<ColumnBinding>,
    WriteError,
>)
    ensures
        match r {
            Ok(cols) => record_matches_schema(record@, names_of(schema@)) && binding_model_seq(
                cols@,
            ) =~= spec_bound_row(mapping_fields(record@), names_of(schema@)),
            Err(e) => !record_matches_schema(record@, names_of(schema@)) && e
                == WriteError::FieldSetMismatch,
        },
{
    match record {
        DataValue::Mapping(fields) => {
            proof {
                lemma_field_models_props(fields@);
            }
            if fields.len() != schema.len() {
                return Err(WriteError::FieldSetMismatch);
            }
            let mut cols: Vec<ColumnBinding> = Vec::new();
            let mut j: usize = 0;
            while j < schema.len()
                invariant
                    j <= schema@.len(),
                    fields@.len() == schema@.len(),
                    forall|k: int|
                        0 <= k < j ==> lookup_field(
                            field_models(fields@),
                            #[trigger] names_of(schema@)[k],
                        ) is Some,
                    binding_model_seq(cols@) =~= spec_bound_row(
                        field_models(fields@),
                        names_of(schema@),
                    ).subrange(0, j as int),
                decreases schema@.len() - j,
            {
                match lookup_record_field(fields, &schema[j]) {
                    Some(v) => {
                        let c = v.to_column_binding();
                        proof {
                            lemma_binding_model_seq_push(cols@, c);
                        }
                        cols.push(c);
                        proof {
                            assert(binding_model_seq(cols@) =~= spec_bound_row(
                                field_models(fields@),
                                names_of(schema@),
                            ).subrange(0, j as int + 1));
                        }
                    },
                    None => {
                        proof {
                            assert(lookup_field(
                                field_models(fields@),
                                names_of(schema@)[j as int],
                            ) is None);
                        }
                        return Err(WriteError::FieldSetMismatch);
                    },
                }
                j = j + 1;
            }
            proof {
                assert(spec_bound_row(field_models(fields@), names_of(schema@)).subrange(
                    0,
                    schema@.len() as int,
                ) =~= spec_bound_row(field_models(fields@), names_of(schema@)));
            }
            Ok(cols)
        },
        _ => Err(WriteError::FieldSetMismatch),
    }
}

/// The field names of a record, cloned out in enumeration order; nothing
/// when the record is not a mapping.
#[verifier::loop_isolation(false)]
pub fn derive_field_names(record: &DataValue) -> (r: Option<Vec<String>>)
    ensures
        match r {
            Some(names) => record@ is Mapping && names_of(names@) =~= record_keys(
                mapping_fields(record@),
            ),
            None => !(record@ is Mapping),
        },
{
    match record {
        DataValue::Mapping(fields) => {
            proof {
                lemma_field_models_props(fields@);
            }
            let mut names: Vec<String> = Vec::new();
            let mut i: usize = 0;
            while i < fields.len()
                invariant
                    i <= fields@.len(),
                    names@.len() == i,
                    forall|j: int| 0 <= j < i ==> names@[j]@ == fields@[j].0@,
                decreases fields@.len() - i,
            {
                names.push(fields[i].0.clone());
                i = i + 1;
            }
            proof {
                assert(names_of(names@) =~= record_keys(field_models(fields@)));
            }
            Some(names)
        },
        _ => None,
    }
}

/// The store writer's verified state: the target keyspace and table, and
/// the schema cached after the first record of the first non-empty batch.
/// Once set, the schema is never recomputed; a later record whose field
/// set differs fails its own batch only.
pub struct StoreWriter {
    keyspace: String,
    table: String,
    fields: Option<Vec<String>>,
}

impl StoreWriter {
    pub closed spec fn keyspace(&self) -> Seq<char> {
        self.keyspace@
    }

    pub closed spec fn table(&self) -> Seq<char> {
        self.table@
    }

    /// The cached schema, once one has been derived.
    pub closed spec fn schema(&self) -> Option<Seq<Seq<char>>> {
        match self.fields {
            Some(f) => Some(names_of(f@)),
            None => None,
        }
    }

    /// A writer with no schema yet.
    pub fn new(keyspace: String, table: String) -> (r: StoreWriter)
        ensures
            r.keyspace() == keyspace@,
            r.table() == table@,
            r.schema() is None,
    {
        StoreWriter { keyspace, table, fields: None }
    }

    pub fn has_schema(&self) -> (r: bool)
        ensures
            r == (self.schema() is Some),
    {
        self.fields.is_some()
    }

    /// Derive and cache the schema from the first record of the first
    /// non-empty batch; on every later call the cached schema stands
    /// untouched, whatever the batch holds.
    pub fn ensure_schema(&mut self, records: &Vec<DataValue>) -> (r: Result<(), WriteError>)
        requires
            records@.len() > 0,
        ensures
            final(self).keyspace() == old(self).keyspace(),
            final(self).table() == old(self).table(),
            old(self).schema() is Some ==> *final(self) == *old(self) && r is Ok,
            old(self).schema() is None ==> match r {
                Ok(u) => records@[0]@ is Mapping && final(self).schema() == Some(
                    record_keys(mapping_fields(records@[0]@)),
                ),
                Err(e) => {
                    &&& !(records@[0]@ is Mapping)
                    &&& e == WriteError::SchemaUnderivable
                    &&& *final(self) == *old(self)
                },
            },
    {
        if self.fields.is_some() {
            return Ok(());
        }
        match derive_field_names(&records[0]) {
            Some(names) => {
                self.fields = Some(names);
                Ok(())
            },
            None => Err(WriteError::SchemaUnderivable),
        }
    }

    /// The cached schema's field names, cloned out in schema order.
    #[verifier::loop_isolation(false)]
    pub fn field_names(&self) -> (r: Vec<String>)
        requires
            self.schema() is Some,
        ensures
            names_of(r@) =~= self.schema().unwrap(),
    {
        match &self.fields {
            Some(names) => {
                let mut out: Vec<String> = Vec::new();
                let mut i: usize = 0;
                while i < names.len()
                    invariant
                        i <= names@.len(),
                        out@.len() == i,
                        forall|j: int| 0 <= j < i ==> out@[j]@ == names@[j]@,
                    decreases names@.len() - i,
                {
                    out.push(names[i].clone());
                    i = i + 1;
                }
                out
            },
            None => Vec::new(),
        }
    }

    /// The parameterized insert statement for the cached schema.
    pub fn statement(&self) -> (r: String)
        requires
            self.schema() is Some,
        ensures
            r@ == spec_insert_statement(self.keyspace(), self.table(), self.schema().unwrap()),
    {
        match &self.fields {
            Some(names) => insert_statement(self.keyspace.as_str(), self.table.as_str(), names),
            None => String::new(),
        }
    }

    /// Bind a whole batch against the cached schema: one row of column
    /// bindings per record, or one error failing the whole batch as soon
    /// as any record's field set does not match (no partial success).
    #[verifier::loop_isolation(false)]
    pub fn bind_batch(&self, records: &Vec<DataValue>) -> (r: Result<
        Vec<Vec<ColumnBinding>>,
        WriteError,
    >)
        requires
            self.schema() is Some,
        ensures
            match r {
                Ok(rows) => {
                    &&& rows@.len() == records@.len()
                    &&& forall|i: int|
                        0 <= i < records@.len() ==> record_matches_schema(
                            (#[trigger] records@[i])@,
                            self.schema().unwrap(),
                        )
                    &&& forall|i: int|
                        0 <= i < records@.len() ==> binding_model_seq(
                            (#[trigger] rows@[i])@,
                        ) =~= spec_bound_row(mapping_fields(records@[i]@), self.schema().unwrap())
                },
                Err(e) => {
                    &&& exists|i: int|
                        0 <= i < records@.len() && !record_matches_schema(
                            (#[trigger] records@[i])@,
                            self.schema().unwrap(),
                        )
                    &&& e == WriteError::FieldSetMismatch
                },
            },
    {
        let schema = match &self.fields {
            Some(names) => names,
            None => {
                return Err(WriteError::FieldSetMismatch);
            },
        };
        let mut rows: Vec<Vec<ColumnBinding>> = Vec::new();
        let mut i: usize = 0;
        while i < records.len()
            invariant
                i <= records@.len(),
                rows@.len() == i,
                names_of(schema@) == self.schema().unwrap(),
                forall|k: int|
                    0 <= k < i ==> record_matches_schema(
                        (#[trigger] records@[k])@,
                        self.schema().unwrap(),
                    ),
                forall|k: int|
                    0 <= k < i ==> binding_model_seq((#[trigger] rows@[k])@) =~= spec_bound_row(
                        mapping_fields(records@[k]@),
                        self.schema().unwrap(),
                    ),
            decreases records@.len() - i,
        {
            match bind_record(schema, &records[i]) {
                Ok(cols) => {
                    rows.push(cols);
                },
                Err(e) => {
                    return Err(e);
                },
            }
            i = i + 1;
        }
        Ok(rows)
    }
}

} // verus!
