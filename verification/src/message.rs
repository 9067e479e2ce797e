//! The instruction that comes with a payment, and how it is read from text.

use crate::error::MintError;
use vstd::prelude::*;
use vstd::utf8::encode_utf8;

verus! {

/// What a payment asks for.
#[derive(Clone, Copy, Debug, PartialEq, Eq, Structural)]
pub enum TokenReceiverMessage {
    /// Mint `mint_amount` items; the amount paid must cover exactly that many.
    Mint { mint_amount: u16 },
}

/// What `serde_json::from_str` makes of `text` when it is asked for a map from
/// member names to 16-bit numbers: the members of the map in its order, or
/// `None` where it reports an error.
pub uninterp spec fn decoded_fields(text: Seq<char>) -> Option<Seq<(Seq<char>, u16)>>;

/// Decoded members, each name taken as the characters it is made of.
pub open spec fn fields_view(fields: Seq<(String, u16)>) -> Seq<(Seq<char>, u16)> {
    Seq::new(fields.len(), |i: int| (fields[i].0@, fields[i].1))
}

/// `fields_view` under an `Option`.
pub open spec fn decoding_view(fields: Option<Vec<(String, u16)>>) -> Option<
    Seq<(Seq<char>, u16)>,
> {
    match fields {
        Some(members) => Some(fields_view(members@)),
        None => None,
    }
}

/// Calls `serde_json::from_str` (through the SDK, which re-exports the crate)
/// to read `text` as a `BTreeMap<String, u16>`, and lists the members in the
/// map's order. Nothing is claimed of the outcome but that it depends on
/// `text` alone: it is the value that `decoded_fields` names. The map keeps
/// one member of each name, so a member that `text` repeats does not show
/// here; `parse` counts the colons of `text` to refuse it.
#[verifier::external_body]
fn decode_fields(text: &str) -> (fields: Option<Vec<(String, u16)>>)
    ensures
        decoding_view(fields) == decoded_fields(text@),
{
    match near_sdk::serde_json::from_str::<std::collections::BTreeMap<String, u16>>(text) {
        Ok(members) => Some(members.into_iter().collect()),
        Err(_) => None,
    }
}

/// The instruction that decoded members stand for: a mint instruction when
/// there is exactly one member and its name is `mint_amount`, and nothing else.
pub open spec fn message_of(fields: Option<Seq<(Seq<char>, u16)>>) -> Result<
    TokenReceiverMessage,
    MintError,
> {
    match fields {
        Some(members) => if members.len() == 1 && members[0].0 == "mint_amount"@ {
            Ok(TokenReceiverMessage::Mint { mint_amount: members[0].1 })
        } else {
            Err(MintError::MalformedInstruction)
        },
        None => Err(MintError::MalformedInstruction),
    }
}

/// How many colons `bytes` holds.
pub open spec fn colons(bytes: Seq<u8>) -> nat
    decreases bytes.len(),
{
    if bytes.len() == 0 {
        0
    } else {
        colons(bytes.drop_last()) + if bytes.last() == 58 {
            1nat
        } else {
            0nat
        }
    }
}

/// What the text that came with a payment asks for: nothing when it is
/// empty, else the instruction that its decoded members stand for, provided
/// that the text holds exactly one colon.
///
/// The colon is what tells a repeated member. Every member of an object
/// brings a colon between its name and its value; the value of a member that
/// decodes is a number, and the name `mint_amount` holds no colon however it
/// is spelled. So a text that decodes to the single member `mint_amount`
/// holds as many colons as it holds members of that name, and with one colon
/// it holds one.
pub open spec fn instruction_of(text: Seq<char>, fields: Option<Seq<(Seq<char>, u16)>>) -> Result<
    Option<TokenReceiverMessage>,
    MintError,
> {
    if text.len() == 0 {
        Ok(None)
    } else if colons(encode_utf8(text)) != 1 {
        Err(MintError::MalformedInstruction)
    } else {
        match message_of(fields) {
            Ok(message) => Ok(Some(message)),
            Err(e) => Err(e),
        }
    }
}

/// Counts the colons of `text`.
pub fn count_colons(text: &str) -> (n: usize)
    ensures
        n == colons(encode_utf8(text@)),
{
    let bytes = text.as_bytes();
    let mut n: usize = 0;
    let mut i: usize = 0;
    while i < bytes.len()
        invariant
            i <= bytes@.len(),
            n <= i,
            n == colons(bytes@.take(i as int)),
            bytes@ == encode_utf8(text@),
        decreases bytes@.len() - i,
    {
        proof {
            assert(bytes@.take(i + 1).drop_last() =~= bytes@.take(i as int));
        }
        if bytes[i] == 58 {
            n += 1;
        }
        i += 1;
    }
    proof {
        assert(bytes@.take(i as int) =~= bytes@);
    }
    n
}

impl TokenReceiverMessage {
    /// Reads an instruction from decoded members. Anything but the single
    /// member `mint_amount` is refused as malformed.
    pub fn from_fields(fields: &Option<Vec<(String, u16)>>) -> (message: Result<
        TokenReceiverMessage,
        MintError,
    >)
        ensures
            message == message_of(decoding_view(*fields)),
    {
        match fields {
            Some(members) => {
                if members.len() == 1 && members[0].0 == "mint_amount".to_owned() {
                    Ok(TokenReceiverMessage::Mint { mint_amount: members[0].1 })
                } else {
                    Err(MintError::MalformedInstruction)
                }
            },
            None => Err(MintError::MalformedInstruction),
        }
    }

    /// Reads the text that came with a payment. An empty text asks for
    /// nothing; any other text must decode to a mint instruction, and must
    /// hold exactly one colon, so that it states its one member once.
    pub fn parse(text: &str) -> (instruction: Result<Option<TokenReceiverMessage>, MintError>)
        ensures
            instruction == instruction_of(text@, decoded_fields(text@)),
    {
        if text.is_empty() {
            Ok(None)
        } else if count_colons(text) != 1 {
            Err(MintError::MalformedInstruction)
        } else {
            let fields = decode_fields(text);
            match TokenReceiverMessage::from_fields(&fields) {
                Ok(message) => Ok(Some(message)),
                Err(e) => Err(e),
            }
        }
    }
}

} // verus!
