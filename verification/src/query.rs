//! Construction of the partial image-metadata update: only fields present
//! in the patch are named in the statement, and every caller-supplied value
//! travels as a named bound parameter, never spliced into the statement
//! text.

use vstd::prelude::*;
use vstd::string::StringExecFns;
use crate::models::ImageUpdateRequest;

verus! {

/// A value bound to one statement parameter.
#[derive(Debug, Clone)]
pub enum BindValue {
    Text(String),
    TextList(Vec<String>),
}

/// A complete update command: the statement text, whose only variable part
/// is which field names appear, and the values bound to its parameters.
#[derive(Debug, Clone)]
pub struct UpdateStatement {
    pub query: String,
    pub bindings: Vec<(String, BindValue)>,
}

/// A bound value as the contracts speak of it: by its characters.
pub enum BindSpec {
    Text(Seq<char>),
    TextList(Seq<Seq<char>>),
}

/// One binding as the contracts speak of it.
pub open spec fn spec_bind_view(b: (String, BindValue)) -> (Seq<char>, BindSpec) {
    (
        b.0@,
        match b.1 {
            BindValue::Text(s) => BindSpec::Text(s@),
            BindValue::TextList(v) => BindSpec::TextList(v.deep_view()),
        },
    )
}

/// Whether the patch sets any recognized field. An empty gallery counts as
/// absent: the stored update skips it.
pub open spec fn spec_has_update_fields(r: ImageUpdateRequest) -> bool {
    ||| r.hero_image_url is Some
    ||| (r.image_gallery is Some && r.image_gallery->0.len() > 0)
    ||| r.image_source is Some
    ||| r.condition is Some
    ||| r.status is Some
}

/// The SET clauses of the statement, one per present field, in a fixed
/// order, closed by the server-side timestamp touch.
pub open spec fn spec_update_clauses(r: ImageUpdateRequest) -> Seq<Seq<char>> {
    let cs = Seq::<Seq<char>>::empty();
    let cs = if r.hero_image_url is Some {
        cs.push("hero_image_url = $hero_image_url"@)
    } else {
        cs
    };
    let cs = if r.image_gallery is Some && r.image_gallery->0.len() > 0 {
        cs.push("image_gallery = $image_gallery"@)
    } else {
        cs
    };
    let cs = if r.image_source is Some {
        cs.push("image_source = $image_source"@)
    } else {
        cs
    };
    let cs = if r.condition is Some {
        cs.push("condition = $condition"@)
    } else {
        cs
    };
    let cs = if r.status is Some {
        cs.push("status = $status"@)
    } else {
        cs
    };
    cs.push("updated_at = time::now()"@)
}

/// Clause texts joined by a comma and a space.
pub open spec fn spec_join_clauses(cs: Seq<Seq<char>>) -> Seq<char>
    decreases cs.len(),
{
    if cs.len() == 0 {
        Seq::empty()
    } else if cs.len() == 1 {
        cs[0]
    } else {
        cs[0] + ", "@ + spec_join_clauses(cs.skip(1))
    }
}

/// The full statement text: the record id is itself a parameter.
pub open spec fn spec_update_query(r: ImageUpdateRequest) -> Seq<char> {
    "UPDATE type::record($rid) SET "@ + spec_join_clauses(spec_update_clauses(r))
}

/// The bindings of the statement: the record id, then one value per
/// present field, in clause order.
pub open spec fn spec_update_bindings(rid: Seq<char>, r: ImageUpdateRequest) -> Seq<
    (Seq<char>, BindSpec),
> {
    let bs = seq![("rid"@, BindSpec::Text(rid))];
    let bs = if r.hero_image_url is Some {
        bs.push(("hero_image_url"@, BindSpec::Text(r.hero_image_url->0@)))
    } else {
        bs
    };
    let bs = if r.image_gallery is Some && r.image_gallery->0.len() > 0 {
        bs.push(("image_gallery"@, BindSpec::TextList(r.image_gallery->0.deep_view())))
    } else {
        bs
    };
    let bs = if r.image_source is Some {
        bs.push(("image_source"@, BindSpec::Text(r.image_source->0@)))
    } else {
        bs
    };
    let bs = if r.condition is Some {
        bs.push(("condition"@, BindSpec::Text(r.condition->0@)))
    } else {
        bs
    };
    let bs = if r.status is Some {
        bs.push(("status"@, BindSpec::Text(r.status->0@)))
    } else {
        bs
    };
    bs
}

proof fn lemma_join_push(cs: Seq<Seq<char>>, c: Seq<char>)
    requires
        cs.len() > 0,
    ensures
        spec_join_clauses(cs.push(c)) == spec_join_clauses(cs) + ", "@ + c,
    decreases cs.len(),
{
    if cs.len() == 1 {
        assert(cs.push(c)[0] == cs[0]);
        assert(cs.push(c).skip(1) =~= seq![c]);
        assert(spec_join_clauses(seq![c]) == c);
        assert(spec_join_clauses(cs.push(c)) == cs[0] + ", "@ + c);
    } else {
        lemma_join_push(cs.skip(1), c);
        assert(cs.push(c)[0] == cs[0]);
        assert(cs.push(c).skip(1) =~= cs.skip(1).push(c));
        assert(cs[0] + ", "@ + (spec_join_clauses(cs.skip(1)) + ", "@ + c) =~= (cs[0] + ", "@
            + spec_join_clauses(cs.skip(1))) + ", "@ + c);
    }
}

/// Join clause texts with a comma and a space.
fn join_clauses(cs: &Vec<String>) -> (r: String)
    requires
        cs@.len() > 0,
    ensures
        r@ == spec_join_clauses(cs.deep_view()),
{
    let mut r = cs[0].clone();
    proof {
        assert(cs.deep_view().take(1) =~= seq![cs.deep_view()[0]]);
    }
    let mut i: usize = 1;
    while i < cs.len()
        invariant
            1 <= i <= cs@.len(),
            cs.deep_view().len() == cs@.len(),
            r@ == spec_join_clauses(cs.deep_view().take(i as int)),
        decreases cs@.len() - i,
    {
        r.append(", ");
        r.append(cs[i].as_str());
        proof {
            lemma_join_push(cs.deep_view().take(i as int), cs.deep_view()[i as int]);
            assert(cs.deep_view().take(i + 1) =~= cs.deep_view().take(i as int).push(
                cs.deep_view()[i as int],
            ));
        }
        i = i + 1;
    }
    proof {
        assert(cs.deep_view().take(cs@.len() as int) =~= cs.deep_view());
    }
    r
}

fn clone_string_vec(v: &Vec<String>) -> (r: Vec<String>)
    ensures
        r@ == v@,
{
    let mut r: Vec<String> = Vec::new();
    let mut i: usize = 0;
    while i < v.len()
        invariant
            i <= v@.len(),
            r@ == v@.take(i as int),
        decreases v@.len() - i,
    {
        r.push(v[i].clone());
        proof {
            assert(v@.take(i + 1) =~= v@.take(i as int).push(v@[i as int]));
        }
        i = i + 1;
    }
    proof {
        assert(v@.take(v@.len() as int) =~= v@);
    }
    r
}

/// Build the update command for a patch, or nothing when the patch sets no
/// recognized field.
pub fn build_image_update(rid: &String, req: &ImageUpdateRequest) -> (r: Option<UpdateStatement>)
    ensures
        r is Some <==> spec_has_update_fields(*req),
        r is Some ==> r->0.query@ == spec_update_query(*req),
        r is Some ==> r->0.bindings@.map_values(|b: (String, BindValue)| spec_bind_view(b))
            == spec_update_bindings(rid@, *req),
{
    let mut clauses: Vec<String> = Vec::new();
    let mut bindings: Vec<(String, BindValue)> = Vec::new();
    bindings.push((String::from_str("rid"), BindValue::Text(rid.clone())));
    match &req.hero_image_url {
        Some(u) => {
            clauses.push(String::from_str("hero_image_url = $hero_image_url"));
            bindings.push((String::from_str("hero_image_url"), BindValue::Text(u.clone())));
        },
        None => {},
    }
    match &req.image_gallery {
        Some(g) => {
            if g.len() > 0 {
                clauses.push(String::from_str("image_gallery = $image_gallery"));
                bindings.push(
                    (String::from_str("image_gallery"), BindValue::TextList(clone_string_vec(g))),
                );
            }
        },
        None => {},
    }
    match &req.image_source {
        Some(s) => {
            clauses.push(String::from_str("image_source = $image_source"));
            bindings.push((String::from_str("image_source"), BindValue::Text(s.clone())));
        },
        None => {},
    }
    match &req.condition {
        Some(c) => {
            clauses.push(String::from_str("condition = $condition"));
            bindings.push((String::from_str("condition"), BindValue::Text(c.clone())));
        },
        None => {},
    }
    match &req.status {
        Some(s) => {
            clauses.push(String::from_str("status = $status"));
            bindings.push((String::from_str("status"), BindValue::Text(s.clone())));
        },
        None => {},
    }
    if clauses.len() == 0 {
        return None;
    }
    clauses.push(String::from_str("updated_at = time::now()"));
    proof {
        assert(clauses.deep_view() =~= spec_update_clauses(*req));
        assert(bindings@.map_values(|b: (String, BindValue)| spec_bind_view(b)) =~=
            spec_update_bindings(rid@, *req));
    }
    let joined = join_clauses(&clauses);
    let mut query = String::from_str("UPDATE type::record($rid) SET ");
    query.append(joined.as_str());
    Some(UpdateStatement { query, bindings })
}

} // verus!
