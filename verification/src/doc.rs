//! Merging one entity's raw field map, tags and annotations into a single
//! flat document, exactly as the bridge reports it: the raw fields first,
//! then one numbered entry per tag, then an entry-timestamp and a text entry
//! per annotation, then the entity id itself.

use vstd::prelude::*;
use vstd::string::*;
use crate::numfmt::{dec_int, dec_nat, i64_to_dec, u64_to_dec};

verus! {

/// Mathematical form of a list of key/value pairs.
pub open spec fn pairs_model(v: Seq<(String, String)>) -> Seq<(Seq<char>, Seq<char>)> {
    v.map_values(|p: (String, String)| (p.0@, p.1@))
}

/// The numbered entries reporting an entity's tags, from `start` up.
pub open spec fn tag_entries(tags: Seq<Seq<char>>, start: nat) -> Seq<(Seq<char>, Seq<char>)>
    decreases tags.len(),
{
    if tags.len() == 0 {
        Seq::empty()
    } else {
        seq![("tag_"@ + dec_nat(start), tags[0])] + tag_entries(tags.drop_first(), start + 1)
    }
}

/// The numbered entry pair reporting one annotation.
pub open spec fn ann_entry_pair(idx: nat, ts: int, text: Seq<char>) -> Seq<(Seq<char>, Seq<char>)> {
    seq![
        ("annotation_"@ + dec_nat(idx) + "_entry"@, dec_int(ts)),
        ("annotation_"@ + dec_nat(idx) + "_description"@, text),
    ]
}

/// The numbered entries reporting an entity's annotations, from `start` up.
pub open spec fn ann_entries(anns: Seq<(int, Seq<char>)>, start: nat) -> Seq<(Seq<char>, Seq<char>)>
    decreases anns.len(),
{
    if anns.len() == 0 {
        Seq::empty()
    } else {
        ann_entry_pair(start, anns[0].0, anns[0].1) + ann_entries(anns.drop_first(), start + 1)
    }
}

/// The whole merged document.
pub open spec fn merged_doc(
    props: Seq<(Seq<char>, Seq<char>)>,
    tags: Seq<Seq<char>>,
    anns: Seq<(int, Seq<char>)>,
    id: Seq<char>,
) -> Seq<(Seq<char>, Seq<char>)> {
    props + tag_entries(tags, 0) + ann_entries(anns, 0) + seq![("uuid"@, id)]
}

proof fn lemma_tag_entries_snoc(tags: Seq<Seq<char>>, t: Seq<char>, start: nat)
    ensures
        tag_entries(tags.push(t), start) == tag_entries(tags, start) + seq![
            ("tag_"@ + dec_nat(start + tags.len()), t),
        ],
    decreases tags.len(),
{
    let tail = seq![("tag_"@ + dec_nat(start + tags.len()), t)];
    if tags.len() == 0 {
        let one = tags.push(t);
        assert(one[0] == t);
        assert(one.drop_first() =~= Seq::<Seq<char>>::empty());
        assert(tag_entries(one.drop_first(), start + 1) =~= Seq::<(Seq<char>, Seq<char>)>::empty());
        assert(tag_entries(one, start) =~= tag_entries(tags, start) + tail);
    } else {
        let more = tags.push(t);
        assert(more[0] == tags[0]);
        assert(more.drop_first() =~= tags.drop_first().push(t));
        lemma_tag_entries_snoc(tags.drop_first(), t, start + 1);
        assert(tag_entries(more, start) =~= tag_entries(tags, start) + tail);
    }
}

proof fn lemma_ann_entries_snoc(anns: Seq<(int, Seq<char>)>, ts: int, text: Seq<char>, start: nat)
    ensures
        ann_entries(anns.push((ts, text)), start) == ann_entries(anns, start) + ann_entry_pair(
            start + anns.len(),
            ts,
            text,
        ),
    decreases anns.len(),
{
    let tail = ann_entry_pair(start + anns.len(), ts, text);
    if anns.len() == 0 {
        let one = anns.push((ts, text));
        assert(one[0] == (ts, text));
        assert(one.drop_first() =~= Seq::<(int, Seq<char>)>::empty());
        assert(ann_entries(one.drop_first(), start + 1) =~= Seq::<(Seq<char>, Seq<char>)>::empty());
        assert(ann_entries(one, start) =~= ann_entries(anns, start) + tail);
    } else {
        let more = anns.push((ts, text));
        assert(more[0] == anns[0]);
        assert(more.drop_first() =~= anns.drop_first().push((ts, text)));
        lemma_ann_entries_snoc(anns.drop_first(), ts, text, start + 1);
        assert(ann_entries(more, start) =~= ann_entries(anns, start) + tail);
    }
}

fn tag_key(i: usize) -> (k: String)
    ensures
        k@ == "tag_"@ + dec_nat(i as nat),
{
    let mut k = "tag_".to_owned();
    let digits = u64_to_dec(i as u64);
    k.append(digits.as_str());
    k
}

fn ann_entry_key(i: usize) -> (k: String)
    ensures
        k@ == "annotation_"@ + dec_nat(i as nat) + "_entry"@,
{
    let mut k = "annotation_".to_owned();
    let digits = u64_to_dec(i as u64);
    k.append(digits.as_str());
    k.append("_entry");
    k
}

fn ann_text_key(i: usize) -> (k: String)
    ensures
        k@ == "annotation_"@ + dec_nat(i as nat) + "_description"@,
{
    let mut k = "annotation_".to_owned();
    let digits = u64_to_dec(i as u64);
    k.append(digits.as_str());
    k.append("_description");
    k
}

/// Merge one entity's raw fields, tags and annotations, with its id, into
/// the single flat document the bridge reports.
pub fn merge_document(
    props: &Vec<(String, String)>,
    tags: &Vec<String>,
    anns: &Vec<(i64, String)>,
    id: &String,
) -> (doc: Vec<(String, String)>)
    ensures
        pairs_model(doc@) == merged_doc(
            pairs_model(props@),
            tags@.map_values(|s: String| s@),
            anns@.map_values(|p: (i64, String)| (p.0 as int, p.1@)),
            id@,
        ),
{
    let ghost props_m = pairs_model(props@);
    let ghost tags_m = tags@.map_values(|s: String| s@);
    let ghost anns_m = anns@.map_values(|p: (i64, String)| (p.0 as int, p.1@));
    let mut doc: Vec<(String, String)> = Vec::new();

    let np = props.len();
    let mut i: usize = 0;
    while i < np
        invariant
            np == props@.len(),
            0 <= i <= np,
            props_m == pairs_model(props@),
            pairs_model(doc@) =~= props_m.take(i as int),
        decreases np - i,
    {
        let ghost d_before = doc@;
        doc.push((props[i].0.clone(), props[i].1.clone()));
        proof {
            assert(pairs_model(d_before).len() == i as int);
            assert(d_before.len() == i as int);
            assert(doc@ =~= d_before.push(doc@[i as int]));
            assert(pairs_model(doc@)[i as int] == props_m[i as int]);
            assert(pairs_model(doc@) =~= props_m.take((i + 1) as int));
        }
        i = i + 1;
    }
    proof {
        assert(props_m.take(np as int) =~= props_m);
    }

    let nt = tags.len();
    let mut j: usize = 0;
    while j < nt
        invariant
            nt == tags@.len(),
            0 <= j <= nt,
            props_m == pairs_model(props@),
            tags_m == tags@.map_values(|s: String| s@),
            pairs_model(doc@) =~= props_m + tag_entries(tags_m.take(j as int), 0),
        decreases nt - j,
    {
        let k = tag_key(j);
        let ghost kv = k@;
        let ghost d_before = doc@;
        doc.push((k, tags[j].clone()));
        proof {
            assert(doc@ =~= d_before.push(doc@[d_before.len() as int]));
            assert(pairs_model(doc@) =~= pairs_model(d_before) + seq![(kv, tags_m[j as int])]);
            lemma_tag_entries_snoc(tags_m.take(j as int), tags_m[j as int], 0);
            assert(tags_m.take(j as int).push(tags_m[j as int]) =~= tags_m.take((j + 1) as int));
            assert(tags_m.take(j as int).len() == j as int);
            assert(pairs_model(doc@) =~= props_m + tag_entries(tags_m.take((j + 1) as int), 0));
        }
        j = j + 1;
    }
    proof {
        assert(tags_m.take(nt as int) =~= tags_m);
    }

    let na = anns.len();
    let mut a: usize = 0;
    while a < na
        invariant
            na == anns@.len(),
            0 <= a <= na,
            props_m == pairs_model(props@),
            tags_m == tags@.map_values(|s: String| s@),
            anns_m == anns@.map_values(|p: (i64, String)| (p.0 as int, p.1@)),
            pairs_model(doc@) =~= props_m + tag_entries(tags_m, 0) + ann_entries(
                anns_m.take(a as int),
                0,
            ),
        decreases na - a,
    {
        let ke = ann_entry_key(a);
        let kd = ann_text_key(a);
        let ghost kev = ke@;
        let ghost kdv = kd@;
        let ts = anns[a].0;
        let ghost d_before = doc@;
        doc.push((ke, i64_to_dec(ts)));
        doc.push((kd, anns[a].1.clone()));
        proof {
            assert(doc@.len() == d_before.len() + 2);
            assert(pairs_model(doc@) =~= pairs_model(d_before) + seq![
                (kev, dec_int(ts as int)),
                (kdv, anns_m[a as int].1),
            ]);
            lemma_ann_entries_snoc(anns_m.take(a as int), anns_m[a as int].0, anns_m[a as int].1, 0);
            assert(anns_m.take(a as int).push(anns_m[a as int]) =~= anns_m.take((a + 1) as int));
            assert(anns_m.take(a as int).len() == a as int);
            assert(anns_m[a as int] == (ts as int, anns_m[a as int].1));
            assert(pairs_model(doc@) =~= props_m + tag_entries(tags_m, 0) + ann_entries(
                anns_m.take((a + 1) as int),
                0,
            ));
        }
        a = a + 1;
    }
    proof {
        assert(anns_m.take(na as int) =~= anns_m);
    }

    doc.push(("uuid".to_owned(), id.clone()));
    proof {
        assert(pairs_model(doc@) =~= merged_doc(props_m, tags_m, anns_m, id@));
    }
    doc
}

} // verus!
