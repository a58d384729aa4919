//! Voices: what the server lists, and the table offered when it cannot be
//! asked.
use vstd::prelude::*;
use crate::text::same_text;

verus! {

/// A named synthetic speaker.
#[derive(Clone, Debug)]
pub struct Voice {
    pub name: String,
    pub language_code: String,
    pub ssml_gender: String,
    pub display_name: Option<String>,
}

/// The body of the server's reply to a voice listing.
#[derive(Clone, Debug)]
pub struct VoicesResponse {
    pub voices: Vec<Voice>,
    pub language_code: String,
}

/// What came of asking the server for the voices of a language.
#[derive(Clone, Debug)]
pub enum VoicesReply {
    /// The server answered with a success status and a readable listing.
    Listed(VoicesResponse),
    /// The server answered with a success status, but the body could not be
    /// read as a listing; the detail says why.
    Malformed(String),
    /// The server could not be reached, or answered with another status.
    Unavailable,
}

/// The speakers of the fallback table, in the order in which it offers them.
pub open spec fn fallback_names() -> Seq<Seq<char>> {
    seq![
        "Charon"@,
        "Kore"@,
        "Zephyr"@,
        "Achernar"@,
        "Pulcherrima"@,
        "Leda"@,
        "Aoede"@,
        "Callirrhoe"@,
        "Despina"@,
        "Enceladus"@,
        "Puck"@,
        "Umbriel"@,
    ]
}

/// The speakers of the fallback table that count as female.
pub open spec fn is_female_name(name: Seq<char>) -> bool {
    ||| name == "Charon"@
    ||| name == "Kore"@
    ||| name == "Leda"@
    ||| name == "Aoede"@
    ||| name == "Callirrhoe"@
    ||| name == "Pulcherrima"@
    ||| name == "Despina"@
}

pub open spec fn gender_of(name: Seq<char>) -> Seq<char> {
    if is_female_name(name) {
        "FEMALE"@
    } else {
        "MALE"@
    }
}

/// `v` is the fallback entry for speaker `name` in language `language_code`.
pub open spec fn is_fallback_voice(v: Voice, language_code: Seq<char>, name: Seq<char>) -> bool {
    &&& v.name@ == language_code + "-Chirp3-HD-"@ + name
    &&& v.language_code@ == language_code
    &&& v.ssml_gender@ == gender_of(name)
    &&& v.display_name is Some
    &&& v.display_name->0@ == name + " (HD)"@
}

/// The whole fallback table for `language_code`, entry `i` for speaker
/// `fallback_names()[i]`.
pub open spec fn is_fallback_table(vs: Seq<Voice>, language_code: Seq<char>) -> bool {
    &&& vs.len() == fallback_names().len()
    &&& forall|i: int|
        0 <= i < vs.len() ==> is_fallback_voice(#[trigger] vs[i], language_code, fallback_names()[i])
}

/// The message returned when a listing cannot be read.
pub open spec fn malformed_listing_message(detail: Seq<char>) -> Seq<char> {
    "Failed to parse voices response: "@ + detail
}

/// The gender tag of a speaker of the fallback table.
pub fn voice_gender(name: &str) -> (r: String)
    ensures
        r@ == gender_of(name@),
{
    let female = same_text(name, "Charon") || same_text(name, "Kore") || same_text(name, "Leda")
        || same_text(name, "Aoede") || same_text(name, "Callirrhoe") || same_text(
        name,
        "Pulcherrima",
    ) || same_text(name, "Despina");
    if female {
        String::from_str("FEMALE")
    } else {
        String::from_str("MALE")
    }
}

/// The fallback entry for one speaker.
pub fn fallback_voice(language_code: &str, voice_name: &str) -> (v: Voice)
    ensures
        is_fallback_voice(v, language_code@, voice_name@),
{
    let name = String::from_str(language_code).concat("-Chirp3-HD-").concat(voice_name);
    let display = String::from_str(voice_name).concat(" (HD)");
    Voice {
        name,
        language_code: String::from_str(language_code),
        ssml_gender: voice_gender(voice_name),
        display_name: Some(display),
    }
}

/// The voices offered for `language_code` while the server cannot be asked.
pub fn fallback_voices(language_code: &str) -> (r: Vec<Voice>)
    ensures
        is_fallback_table(r@, language_code@),
{
    let names: Vec<&str> = vec![
        "Charon",
        "Kore",
        "Zephyr",
        "Achernar",
        "Pulcherrima",
        "Leda",
        "Aoede",
        "Callirrhoe",
        "Despina",
        "Enceladus",
        "Puck",
        "Umbriel",
    ];
    assert(names@.len() == 12);
    assert(forall|i: int| 0 <= i < 12 ==> #[trigger] names@[i]@ == fallback_names()[i]);
    let mut r: Vec<Voice> = Vec::new();
    for i in 0..names.len()
        invariant
            names@.len() == fallback_names().len(),
            forall|k: int| 0 <= k < names@.len() ==> #[trigger] names@[k]@ == fallback_names()[k],
            r@.len() == i,
            forall|k: int|
                0 <= k < i ==> is_fallback_voice(#[trigger] r@[k], language_code@, fallback_names()[k]),
    {
        r.push(fallback_voice(language_code, names[i]));
    }
    r
}

/// The voices to show for `language_code`, given what the server replied:
/// its listing, an error when the listing cannot be read, and the fallback
/// table when the server is not available.
pub fn voices_for_reply(language_code: &str, reply: VoicesReply) -> (r: Result<Vec<Voice>, String>)
    ensures
        match reply {
            VoicesReply::Listed(listing) => r == Ok::<Vec<Voice>, String>(listing.voices),
            VoicesReply::Malformed(detail) => r is Err && r->Err_0@ == malformed_listing_message(
                detail@,
            ),
            VoicesReply::Unavailable => r is Ok && is_fallback_table(r->Ok_0@, language_code@),
        },
{
    match reply {
        VoicesReply::Listed(listing) => Ok(listing.voices),
        VoicesReply::Malformed(detail) => Err(
            String::from_str("Failed to parse voices response: ").concat(detail.as_str()),
        ),
        VoicesReply::Unavailable => Ok(fallback_voices(language_code)),
    }
}

} // verus!
