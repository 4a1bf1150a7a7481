use vstd::prelude::*;

verus! {

/// The English name that the champion table gives to a champion identifier,
/// or `None` for an identifier that the table does not know.
pub uninterp spec fn champion_name_of(id: i32) -> Option<Seq<char>>;

/// Relies on riven's `Champion::name`: the table lookup of a champion's name
/// by its identifier, `None` for an unknown identifier.
#[verifier::external_body]
fn champion_name(id: i32) -> (r: Option<&'static str>)
    ensures
        match r {
            Some(s) => champion_name_of(id) == Some(s@),
            None => champion_name_of(id).is_none(),
        },
{
    riven::consts::Champion(id).name()
}

/// The label shown for a champion: its name, or `UNKNOWN`.
pub open spec fn champion_label_of(id: i32) -> Seq<char> {
    match champion_name_of(id) {
        Some(s) => s,
        None => "UNKNOWN"@,
    }
}

/// The label shown for a champion: its name, or `UNKNOWN` when the table does
/// not know the identifier.
pub fn champion_label(id: i32) -> (r: String)
    ensures
        r@ == champion_label_of(id),
{
    match champion_name(id) {
        Some(s) => String::from_str(s),
        None => String::from_str("UNKNOWN"),
    }
}

} // verus!
