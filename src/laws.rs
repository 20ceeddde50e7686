//! What holds of the codec for every input: the round trip, totality,
//! closed-world rejection, correlation passthrough and builder defaults.
use crate::codec::RObject;
use crate::errors::ErrorModel;
use crate::json::JsonModel;
use crate::model::{
    decode_field, decode_in, decode_members, default_field, default_record,
    encode_field, encode_members, encode_record, field_conforms, header, wf_record, with_field,
    FieldModel, RecordModel,
};
use crate::schema::{
    category_of, default_member, fields_of, in_union, is_request, lemma_keys_distinct,
    lemma_names_distinct, members,
    tag_name, tag_named, Category, FieldKind, Tag,
};
use vstd::prelude::*;

verus! {

/// Round trip for every value of a record type: its encoding decodes, as
/// that type, to a record with the same fields and correlation id.
pub proof fn lemma_typed_round_trip<T: RObject>(x: &T)
    ensures
        decode_in(encode_record(x@), T::accepted()) == Ok::<RecordModel, ErrorModel>(x@),
{
    x.lemma_view_wf();
    lemma_round_trip(x@, T::accepted());
}

/// The encoded members: each declared key holds its field's encoding, and
/// the header keys are left as the header set them.
proof fn lemma_encoded_members(r: RecordModel, n: nat)
    requires
        wf_record(r),
        n <= r.fields.len(),
    ensures
        forall|i: int|
            0 <= i < n ==> encode_members(r, n).contains_key(#[trigger] fields_of(r.tag)[i].0)
                && encode_members(r, n)[fields_of(r.tag)[i].0] == encode_field(r.fields[i]),
        encode_members(r, n).contains_key("@type"@),
        encode_members(r, n)["@type"@] == JsonModel::Str(tag_name(r.tag)),
        encode_members(r, n).contains_key("@extra"@) <==> r.extra is Some,
        r.extra is Some ==> encode_members(r, n)["@extra"@] == JsonModel::Str(r.extra->Some_0),
    decreases n,
{
    lemma_keys_distinct(r.tag);
    if n > 0 {
        lemma_encoded_members(r, (n - 1) as nat);
        assert forall|i: int| 0 <= i < n implies encode_members(r, n).contains_key(
            #[trigger] fields_of(r.tag)[i].0,
        ) && encode_members(r, n)[fields_of(r.tag)[i].0] == encode_field(r.fields[i]) by {
            if i < n - 1 {
                assert(fields_of(r.tag)[i].0 != fields_of(r.tag)[n - 1].0);
            }
        }
        assert(fields_of(r.tag)[n - 1].0 != "@type"@);
        assert(fields_of(r.tag)[n - 1].0 != "@extra"@);
    } else {
        reveal_strlit("@type");
        reveal_strlit("@extra");
        assert("@type"@[1] != "@extra"@[1]);
    }
}

/// One field decodes back to itself from an object that holds its
/// encoding under its key.
proof fn lemma_field_round_trip(
    m: JsonModel,
    s: Seq<char>,
    key: Seq<char>,
    kind: FieldKind,
    f: FieldModel,
)
    requires
        m is Obj,
        m->Obj_0.contains_key(key),
        m->Obj_0[key] == encode_field(f),
        field_conforms(f, kind),
    ensures
        decode_field(m, s, key, kind) == Ok::<FieldModel, ErrorModel>(f),
    decreases f, 0nat,
{
    match f {
        FieldModel::Ints(xs) => {
            let items = xs.map_values(|x: i32| JsonModel::Int(x as int));
            assert(Seq::new(items.len(), |i: int| items[i]->Int_0 as i32) =~= xs);
        },
        FieldModel::Objects(ms) => {
            let items = ms.map_values(|x: Map<Seq<char>, JsonModel>| JsonModel::Obj(x));
            assert(Seq::new(items.len(), |i: int| items[i]->Obj_0) =~= ms);
        },
        FieldModel::Nested(c) => {
            if let FieldKind::Category(k) = kind {
                lemma_round_trip(c, members(k));
            }
        },
        _ => {},
    }
}

/// The first `n` declared fields decode back to themselves.
proof fn lemma_members_round_trip(r: RecordModel, n: nat)
    requires
        wf_record(r),
        n <= r.fields.len(),
    ensures
        decode_members(encode_record(r), tag_name(r.tag), r.tag, n) == Ok::<
            Seq<FieldModel>,
            ErrorModel,
        >(r.fields.take(n as int)),
    decreases r, 1nat, n,
{
    if n > 0 {
        lemma_members_round_trip(r, (n - 1) as nat);
        lemma_encoded_members(r, r.fields.len());
        let i = n - 1;
        assert(field_conforms(r.fields[i], fields_of(r.tag)[i].1));
        lemma_field_round_trip(
            encode_record(r),
            tag_name(r.tag),
            fields_of(r.tag)[i].0,
            fields_of(r.tag)[i].1,
            r.fields[i],
        );
        assert(r.fields.take(i).push(r.fields[i]) =~= r.fields.take(n as int));
    } else {
        assert(r.fields.take(0) =~= Seq::<FieldModel>::empty());
    }
}

/// Round trip: a well-formed record decodes from its own encoding to itself,
/// field for field, in every union that admits its shape.
pub proof fn lemma_round_trip(r: RecordModel, allowed: Set<Tag>)
    requires
        wf_record(r),
        allowed.contains(r.tag),
    ensures
        decode_in(encode_record(r), allowed) == Ok::<RecordModel, ErrorModel>(r),
    decreases r, 2nat, 0nat,
{
    lemma_names_distinct();
    lemma_encoded_members(r, r.fields.len());
    assert(tag_name(r.tag) == tag_name(r.tag));
    assert(tag_named(tag_name(r.tag)) == Some(r.tag));
    lemma_members_round_trip(r, r.fields.len());
    assert(r.fields.take(r.fields.len() as int) =~= r.fields);
}

/// Every shape's zero-valued record is well formed.
pub proof fn lemma_default_wf(t: Tag)
    ensures
        wf_record(default_record(t)),
        default_record(t).tag == t,
        default_record(t).extra is None,
{
    let r = default_record(t);
    assert forall|i: int| 0 <= i < r.fields.len() implies field_conforms(
        #[trigger] r.fields[i],
        fields_of(r.tag)[i].1,
    ) by {
        if let FieldKind::Category(c) = fields_of(t)[i].1 {
            let d = default_member(c);
            assert(category_of(d) == Some(c));
            assert(fields_of(d).len() == 0);
            assert(wf_record(RecordModel { tag: d, extra: None, fields: Seq::empty() }));
        }
    }
}

/// Totality: for every shape of the table, its minimal instance (every
/// field at its zero value, no correlation id) decodes, as that shape
/// alone, to that instance.
pub proof fn lemma_totality(t: Tag)
    ensures
        decode_in(encode_record(default_record(t)), set![t]) == Ok::<RecordModel, ErrorModel>(
            default_record(t),
        ),
{
    lemma_default_wf(t);
    lemma_round_trip(default_record(t), set![t]);
}

/// Closed world: an object whose discriminator names no shape of the
/// requested union fails with that discriminator, never with a fallback.
pub proof fn lemma_closed_world(o: Map<Seq<char>, JsonModel>, s: Seq<char>, allowed: Set<Tag>)
    requires
        o.contains_key("@type"@),
        o["@type"@] == JsonModel::Str(s),
        forall|t: Tag| allowed.contains(t) ==> tag_name(t) != s,
    ensures
        decode_in(JsonModel::Obj(o), allowed) == Err::<RecordModel, ErrorModel>(
            ErrorModel::UnknownDiscriminator(s),
        ),
{
    if let Some(t) = tag_named(s) {
        assert(tag_name(t) == s);
    }
}

/// Correlation passthrough: the correlation id of a well-formed record reads
/// back unchanged after an encode and a decode.
pub proof fn lemma_correlation_passthrough(r: RecordModel, allowed: Set<Tag>, x: Seq<char>)
    requires
        wf_record(r),
        allowed.contains(r.tag),
        r.extra == Some(x),
    ensures
        decode_in(encode_record(r), allowed) is Ok,
        decode_in(encode_record(r), allowed)->Ok_0.extra == Some(x),
{
    lemma_round_trip(r, allowed);
}

/// An object without a correlation-id member decodes, where it decodes, to
/// a record with no correlation id (not an empty one).
pub proof fn lemma_absent_correlation(o: Map<Seq<char>, JsonModel>, allowed: Set<Tag>)
    requires
        !o.contains_key("@extra"@),
    ensures
        decode_in(JsonModel::Obj(o), allowed) is Ok ==> decode_in(
            JsonModel::Obj(o),
            allowed,
        )->Ok_0.extra is None,
{
}

/// Builder defaults: the zero-valued record of a shape holds the shape's
/// fixed discriminator and, in each declared field, that field's zero value.
pub proof fn lemma_builder_defaults(t: Tag)
    ensures
        default_record(t).tag == t,
        default_record(t).extra is None,
        default_record(t).fields.len() == fields_of(t).len(),
        forall|i: int|
            0 <= i < fields_of(t).len() ==> #[trigger] default_record(t).fields[i] == default_field(
                fields_of(t)[i].1,
            ),
{
}

/// Setting two different fields gives the same record in either order, so
/// what a builder builds does not depend on the order of its calls.
pub proof fn lemma_setters_commute(
    r: RecordModel,
    i: int,
    j: int,
    a: FieldModel,
    b: FieldModel,
)
    requires
        0 <= i < r.fields.len(),
        0 <= j < r.fields.len(),
        i != j,
    ensures
        with_field(with_field(r, i, a), j, b) == with_field(with_field(r, j, b), i, a),
{
    assert(r.fields.update(i, a).update(j, b) =~= r.fields.update(j, b).update(i, a));
}

/// A decoded field has its declared type.
proof fn lemma_decoded_field_conforms(m: JsonModel, s: Seq<char>, key: Seq<char>, kind: FieldKind)
    ensures
        decode_field(m, s, key, kind) is Ok ==> field_conforms(
            decode_field(m, s, key, kind)->Ok_0,
            kind,
        ),
    decreases m, 0nat, 0nat,
{
    if let JsonModel::Obj(o) = m {
        if o.contains_key(key) {
            if let FieldKind::Category(c) = kind {
                if o[key] is Obj {
                    lemma_decoded_wf(o[key], members(c));
                }
            }
        }
    }
}

/// The first `n` decoded fields have their declared types.
proof fn lemma_decoded_members_conform(m: JsonModel, s: Seq<char>, t: Tag, n: nat)
    requires
        n <= fields_of(t).len(),
    ensures
        decode_members(m, s, t, n) is Ok ==> {
            let fs = decode_members(m, s, t, n)->Ok_0;
            &&& fs.len() == n
            &&& forall|i: int| 0 <= i < n ==> field_conforms(#[trigger] fs[i], fields_of(t)[i].1)
        },
    decreases m, 1nat, n,
{
    if n > 0 {
        lemma_decoded_members_conform(m, s, t, (n - 1) as nat);
        lemma_decoded_field_conforms(m, s, fields_of(t)[n - 1].0, fields_of(t)[n - 1].1);
    }
}

/// Whatever decodes is a well-formed record of an allowed shape.
pub proof fn lemma_decoded_wf(m: JsonModel, allowed: Set<Tag>)
    ensures
        decode_in(m, allowed) is Ok ==> wf_record(decode_in(m, allowed)->Ok_0) && allowed.contains(
            decode_in(m, allowed)->Ok_0.tag,
        ),
    decreases m, 2nat, 0nat,
{
    if let JsonModel::Obj(o) = m {
        if o.contains_key("@type"@) && o["@type"@] is Str {
            let s = o["@type"@]->Str_0;
            if let Some(t) = tag_named(s) {
                lemma_decoded_members_conform(m, s, t, fields_of(t).len());
            }
        }
    }
}

/// Round trip from the wire side: whatever decodes, once encoded again,
/// decodes to the same record.
pub proof fn lemma_decode_encode_decode(m: JsonModel, allowed: Set<Tag>)
    requires
        decode_in(m, allowed) is Ok,
    ensures
        decode_in(encode_record(decode_in(m, allowed)->Ok_0), allowed) == decode_in(m, allowed),
{
    lemma_decoded_wf(m, allowed);
    lemma_round_trip(decode_in(m, allowed)->Ok_0, allowed);
}

/// Setting a field to a value of its declared type keeps a record well
/// formed.
pub proof fn lemma_set_field_wf(r: RecordModel, i: int, f: FieldModel)
    requires
        wf_record(r),
        0 <= i < r.fields.len(),
        field_conforms(f, fields_of(r.tag)[i].1),
    ensures
        wf_record(with_field(r, i, f)),
{
    let r2 = with_field(r, i, f);
    assert forall|j: int| 0 <= j < r2.fields.len() implies field_conforms(
        #[trigger] r2.fields[j],
        fields_of(r2.tag)[j].1,
    ) by {
        if j != i {
            assert(r2.fields[j] == r.fields[j]);
        }
    }
}

/// A request shape is never a member of the dispatch union: decoding what
/// arrives never yields a request.
pub proof fn lemma_requests_never_arrive(t: Tag, m: JsonModel)
    requires
        is_request(t),
    ensures
        !in_union(t),
        decode_in(m, Set::new(|u: Tag| in_union(u))) is Ok ==> decode_in(
            m,
            Set::new(|u: Tag| in_union(u)),
        )->Ok_0.tag != t,
{
    lemma_decoded_wf(m, Set::new(|u: Tag| in_union(u)));
}

/// The record after a sequence of setter calls, each naming a field index
/// and its new value, applied in order.
pub open spec fn apply_sets(r: RecordModel, sets: Seq<(int, FieldModel)>) -> RecordModel
    decreases sets.len(),
{
    if sets.len() == 0 {
        r
    } else {
        with_field(apply_sets(r, sets.drop_last()), sets.last().0, sets.last().1)
    }
}

/// The value of the last call in `sets` on field `i`, if any.
pub open spec fn last_set(sets: Seq<(int, FieldModel)>, i: int) -> Option<FieldModel>
    decreases sets.len(),
{
    if sets.len() == 0 {
        None
    } else if sets.last().0 == i {
        Some(sets.last().1)
    } else {
        last_set(sets.drop_last(), i)
    }
}

/// After any sequence of setter calls on a fresh builder of shape `t`, the
/// record holds the discriminator of `t`, no correlation id, and in each
/// field the value of the last call on that field, or its zero value where
/// no call set it.
pub proof fn lemma_builder_sequence(t: Tag, sets: Seq<(int, FieldModel)>)
    requires
        forall|k: int| 0 <= k < sets.len() ==> 0 <= #[trigger] sets[k].0 < fields_of(t).len(),
    ensures
        apply_sets(default_record(t), sets).tag == t,
        apply_sets(default_record(t), sets).extra is None,
        apply_sets(default_record(t), sets).fields.len() == fields_of(t).len(),
        forall|i: int|
            0 <= i < fields_of(t).len() ==> #[trigger] apply_sets(default_record(t), sets).fields[i]
                == match last_set(sets, i) {
                Some(f) => f,
                None => default_field(fields_of(t)[i].1),
            },
    decreases sets.len(),
{
    if sets.len() > 0 {
        let init = sets.drop_last();
        assert forall|k: int| 0 <= k < init.len() implies 0 <= #[trigger] init[k].0 < fields_of(
            t,
        ).len() by {
            assert(init[k] == sets[k]);
        }
        lemma_builder_sequence(t, init);
        assert(0 <= sets[sets.len() - 1].0 < fields_of(t).len());
    }
}

/// Two sequences of setter calls that end with the same value on every
/// field build the same record, whatever the order of the calls.
pub proof fn lemma_builder_order_irrelevant(
    t: Tag,
    a: Seq<(int, FieldModel)>,
    b: Seq<(int, FieldModel)>,
)
    requires
        forall|k: int| 0 <= k < a.len() ==> 0 <= #[trigger] a[k].0 < fields_of(t).len(),
        forall|k: int| 0 <= k < b.len() ==> 0 <= #[trigger] b[k].0 < fields_of(t).len(),
        forall|i: int| 0 <= i < fields_of(t).len() ==> #[trigger] last_set(a, i) == last_set(b, i),
    ensures
        apply_sets(default_record(t), a) == apply_sets(default_record(t), b),
{
    lemma_builder_sequence(t, a);
    lemma_builder_sequence(t, b);
    let ra = apply_sets(default_record(t), a);
    let rb = apply_sets(default_record(t), b);
    assert(ra.fields =~= rb.fields);
}

} // verus!
