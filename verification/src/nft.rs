//! Token rules: soulbound tokens, one per badge, numbered from one.
//!
//! The ledger itself is stored by the caller. Each function takes what it
//! needs of the ledger and says what to store and what to answer.

use crate::bytes::same_bytes;
use crate::models::{header_views, views};
use crate::text::{decimal_string, decimal_text, join2, parse_unsigned, unsigned_value};
use vstd::prelude::*;
use vstd::string::*;
use vstd::utf8::encode_utf8;

verus! {

/// Declares `candid::Nat`, a natural number of any size, as a type that is
/// carried through: nothing is known of it but its text.
#[verifier::external_type_specification]
#[verifier::external_body]
pub struct ExNat(candid::Nat);

/// A named property of a token.
#[derive(Clone, Debug, PartialEq, Eq)]
pub struct Attribute {
    pub name: String,
    pub value: String,
}

impl View for Attribute {
    type V = (Seq<char>, Seq<char>);

    open spec fn view(&self) -> (Seq<char>, Seq<char>) {
        (self.name@, self.value@)
    }
}

/// What a token says of the badge it stands for.
#[derive(Clone, Debug, PartialEq, Eq)]
pub struct TokenMetadata {
    pub token_id: u64,
    pub name: String,
    pub description: String,
    pub image: String,
    pub attributes: Vec<Attribute>,
    pub created_at: u64,
}

/// A token's description with its texts as such.
#[verifier::ext_equal]
pub struct TokenMetadataView {
    pub token_id: u64,
    pub name: Seq<char>,
    pub description: Seq<char>,
    pub image: Seq<char>,
    pub attributes: Seq<(Seq<char>, Seq<char>)>,
    pub created_at: u64,
}

impl View for TokenMetadata {
    type V = TokenMetadataView;

    open spec fn view(&self) -> TokenMetadataView {
        TokenMetadataView {
            token_id: self.token_id,
            name: self.name@,
            description: self.description@,
            image: self.image@,
            attributes: views(self.attributes@),
            created_at: self.created_at,
        }
    }
}

/// A request to hand a token over.
#[derive(Clone, Debug, PartialEq, Eq)]
pub struct TransferArgs {
    pub from: Vec<u8>,
    pub to: Vec<u8>,
    pub token_id: u64,
}

/// The number that a text stands for, or zero where it is no unsigned
/// decimal number that fits in 64 bits.
pub open spec fn number_or_zero(text: Seq<u8>) -> u64 {
    match unsigned_value(text, u64::MAX as nat) {
        Some(v) => v as u64,
        None => 0,
    }
}

/// Reads a text as an unsigned decimal number of 64 bits; any other text
/// reads as zero.
pub fn text_to_u64(text: &str) -> (n: u64)
    ensures
        n == number_or_zero(encode_utf8(text@)),
{
    let bytes = text.as_bytes();
    assert(bytes@.subrange(0, bytes@.len() as int) =~= bytes@);
    match parse_unsigned(bytes, 0, bytes.len(), 0xffff_ffff_ffff_ffff) {
        Some(v) => v,
        None => 0,
    }
}

/// The text that candid's `Display` gives for a natural number.
pub uninterp spec fn nat_display(n: candid::Nat) -> Seq<char>;

/// Calls `to_string` on a `Nat` of candid, which goes by its `Display`.
/// The contract only gives the text its name, `nat_display`.
#[verifier::external_body]
fn nat_text(number: &candid::Nat) -> (text: String)
    ensures
        text@ == nat_display(*number),
{
    number.to_string()
}

/// Turns a natural number into 64 bits by way of its text: the number that
/// its text reads as, and zero where the text does not read as one.
pub fn nat_to_u64(number: &candid::Nat) -> (n: u64)
    ensures
        n == number_or_zero(encode_utf8(nat_display(*number))),
{
    let text = nat_text(number);
    text_to_u64(text.as_str())
}

/// Names the principal that may mint, once: it cannot be named again.
pub fn set_backend_canister(current: Option<&[u8]>, backend_canister: Vec<u8>) -> (r: Result<
    Vec<u8>,
    String,
>)
    ensures
        r is Ok <==> current is None,
        r matches Ok(stored) ==> stored@ == backend_canister@,
        r matches Err(e) ==> e@ == "Backend canister already set"@,
{
    match current {
        Some(_) => Err(String::from_str("Backend canister already set")),
        None => Ok(backend_canister),
    }
}

/// Admits the principal that may mint.
pub fn is_backend_canister(backend_canister: Option<&[u8]>, caller: &[u8]) -> (r: Result<
    (),
    String,
>)
    ensures
        r is Ok <==> (backend_canister is Some && backend_canister->0@ == caller@),
        r matches Err(e) ==> e@ == (if backend_canister is None {
            "Backend canister not configured"@
        } else {
            "Only backend canister can mint tokens"@
        }),
{
    match backend_canister {
        Some(backend) => {
            if same_bytes(caller, backend) {
                Ok(())
            } else {
                Err(String::from_str("Only backend canister can mint tokens"))
            }
        },
        None => Err(String::from_str("Backend canister not configured")),
    }
}

/// What the collection says of itself.
pub open spec fn collection_metadata() -> Seq<(Seq<char>, Seq<char>)> {
    seq![
        ("icrc7:name"@, "VeriFlair Badges"@),
        ("icrc7:symbol"@, "VFB"@),
        (
            "icrc7:description"@,
            "Soulbound NFT badges representing verified developer skills and achievements"@,
        ),
        ("icrc7:max_supply"@, decimal_text(u64::MAX as nat)),
        ("icrc7:supply_cap"@, decimal_text(u64::MAX as nat)),
        ("icrc7:transfer_restrictions"@, "Soulbound - transfers not allowed"@),
    ]
}

fn entry(key: &str, value: &str) -> (e: (String, String))
    ensures
        e.0@ == key@,
        e.1@ == value@,
{
    (String::from_str(key), String::from_str(value))
}

/// Describes the collection.
pub fn icrc7_collection_metadata() -> (metadata: Vec<(String, String)>)
    ensures
        header_views(metadata@) == collection_metadata(),
{
    let cap = decimal_string(0xffff_ffff_ffff_ffff);
    let mut metadata: Vec<(String, String)> = Vec::new();
    metadata.push(entry("icrc7:name", "VeriFlair Badges"));
    metadata.push(entry("icrc7:symbol", "VFB"));
    metadata.push(
        entry(
            "icrc7:description",
            "Soulbound NFT badges representing verified developer skills and achievements",
        ),
    );
    metadata.push(entry("icrc7:max_supply", cap.as_str()));
    metadata.push(entry("icrc7:supply_cap", cap.as_str()));
    metadata.push(entry("icrc7:transfer_restrictions", "Soulbound - transfers not allowed"));
    assert(header_views(metadata@) =~= collection_metadata());
    metadata
}

/// How many tokens were minted when the next one gets the number
/// `next_token_id`.
pub fn icrc7_total_supply(next_token_id: u64) -> (supply: u64)
    ensures
        supply == (if next_token_id > 0 {
            (next_token_id - 1) as u64
        } else {
            u64::MAX
        }),
{
    next_token_id.wrapping_sub(1)
}

/// The attributes of a token as entries: each name behind `attr_`.
pub open spec fn attribute_entries(attributes: Seq<(Seq<char>, Seq<char>)>) -> Seq<
    (Seq<char>, Seq<char>),
> {
    Seq::new(attributes.len(), |i: int| ("attr_"@ + attributes[i].0, attributes[i].1))
}

/// What a token says of itself, as entries: name, description and image,
/// then its attributes, then its number and the time of its creation.
pub open spec fn token_entries(token: TokenMetadataView) -> Seq<(Seq<char>, Seq<char>)> {
    seq![("name"@, token.name), ("description"@, token.description), ("image"@, token.image)]
        + attribute_entries(token.attributes) + seq![
        ("token_id"@, decimal_text(token.token_id as nat)),
        ("created_at"@, decimal_text(token.created_at as nat)),
    ]
}

/// Lists what a token says of itself.
pub fn icrc7_token_metadata(metadata: &TokenMetadata) -> (entries: Vec<(String, String)>)
    ensures
        header_views(entries@) == token_entries(metadata@),
{
    let mut entries: Vec<(String, String)> = Vec::new();
    entries.push(entry("name", metadata.name.as_str()));
    entries.push(entry("description", metadata.description.as_str()));
    entries.push(entry("image", metadata.image.as_str()));
    let ghost fixed = header_views(entries@);
    assert(fixed =~= seq![
        ("name"@, metadata@.name),
        ("description"@, metadata@.description),
        ("image"@, metadata@.image),
    ]);
    let mut i: usize = 0;
    while i < metadata.attributes.len()
        invariant
            i <= metadata.attributes@.len(),
            header_views(entries@) == fixed + attribute_entries(metadata@.attributes).take(
                i as int,
            ),
        decreases metadata.attributes.len() - i,
    {
        let ghost before = header_views(entries@);
        let attribute = &metadata.attributes[i];
        entries.push((join2("attr_", attribute.name.as_str()), attribute.value.clone()));
        proof {
            let all = attribute_entries(metadata@.attributes);
            assert(all[i as int] == ("attr_"@ + attribute.name@, attribute.value@));
            assert(all.take(i + 1) =~= all.take(i as int).push(all[i as int]));
            assert(header_views(entries@) =~= before.push(all[i as int]));
        }
        i = i + 1;
    }
    let ghost listed = header_views(entries@);
    assert(attribute_entries(metadata@.attributes).take(i as int) =~= attribute_entries(
        metadata@.attributes,
    ));
    let token_id = decimal_string(metadata.token_id);
    let created_at = decimal_string(metadata.created_at);
    entries.push(entry("token_id", token_id.as_str()));
    entries.push(entry("created_at", created_at.as_str()));
    assert(header_views(entries@) =~= listed + seq![
        ("token_id"@, decimal_text(metadata.token_id as nat)),
        ("created_at"@, decimal_text(metadata.created_at as nat)),
    ]);
    entries
}

/// The answer to a request to hand tokens over: none changes hands.
pub fn icrc7_transfer(args: &[TransferArgs]) -> (answers: Vec<Option<String>>)
    ensures
        answers@.len() == args@.len(),
        forall|i: int|
            0 <= i < answers@.len() ==> (#[trigger] answers@[i]) is Some && answers@[i]->0@
                == "Soulbound tokens cannot be transferred"@,
{
    let mut answers: Vec<Option<String>> = Vec::new();
    let mut i: usize = 0;
    while i < args.len()
        invariant
            i <= args@.len(),
            answers@.len() == i,
            forall|k: int|
                0 <= k < answers@.len() ==> (#[trigger] answers@[k]) is Some && answers@[k]->0@
                    == "Soulbound tokens cannot be transferred"@,
        decreases args.len() - i,
    {
        answers.push(Some(String::from_str("Soulbound tokens cannot be transferred")));
        i = i + 1;
    }
    answers
}

/// The number from which on tokens are listed: the one behind `prev`, kept
/// to 64 bits, and zero where nothing came before.
pub open spec fn listing_start(prev: Option<u64>) -> u64 {
    match prev {
        Some(p) => ((p + 1) % 0x1_0000_0000_0000_0000) as u64,
        None => 1,
    }
}

/// The tokens of an account among the given tokens with their owners:
/// those from `start` on, in the given order, up to `take` of them.
pub open spec fn owned_tokens(
    owners: Seq<(u64, Seq<u8>)>,
    account: Seq<u8>,
    start: u64,
    take: nat,
) -> Seq<u64>
    decreases owners.len(),
{
    if owners.len() == 0 {
        seq![]
    } else {
        let before = owned_tokens(owners.drop_last(), account, start, take);
        if before.len() < take && owners.last().0 >= start && owners.last().1 == account {
            before.push(owners.last().0)
        } else {
            before
        }
    }
}

/// Token numbers with their owners, the owners as byte sequences.
pub open spec fn owner_views(s: Seq<(u64, Vec<u8>)>) -> Seq<(u64, Seq<u8>)> {
    Seq::new(s.len(), |i: int| (s[i].0, s[i].1@))
}

/// Lists the tokens of an account, a page at a time: up to `take` tokens
/// whose number lies behind `prev`. The tokens with their owners are given
/// in rising order of their numbers.
pub fn tokens_of(owners: &[(u64, Vec<u8>)], account: &[u8], prev: Option<u64>, take: u64) -> (tokens:
    Vec<u64>)
    ensures
        tokens@ == owned_tokens(owner_views(owners@), account@, listing_start(prev), take as nat),
{
    let start: u64 = match prev {
        Some(p) => p.wrapping_add(1),
        None => 1,
    };
    let mut tokens: Vec<u64> = Vec::new();
    let mut i: usize = 0;
    while i < owners.len()
        invariant
            i <= owners@.len(),
            start == listing_start(prev),
            tokens@ == owned_tokens(
                owner_views(owners@).take(i as int),
                account@,
                start,
                take as nat,
            ),
        decreases owners.len() - i,
    {
        proof {
            let all = owner_views(owners@);
            assert(all.take(i + 1).drop_last() =~= all.take(i as int));
            assert(all.take(i + 1).last() == (owners@[i as int].0, owners@[i as int].1@));
        }
        if (tokens.len() as u64) < take && owners[i].0 >= start && same_bytes(
            owners[i].1.as_slice(),
            account,
        ) {
            tokens.push(owners[i].0);
        }
        i = i + 1;
    }
    assert(owner_views(owners@).take(i as int) =~= owner_views(owners@));
    tokens
}

/// Lists the tokens of an account as `tokens_of` does, with `prev` and
/// `take` given as natural numbers: each is turned into 64 bits by way of its
/// text, and a hundred tokens are listed where `take` is not given.
pub fn icrc7_tokens_of(
    owners: &[(u64, Vec<u8>)],
    account: &[u8],
    prev: Option<&candid::Nat>,
    take: Option<&candid::Nat>,
) -> (tokens: Vec<u64>)
    ensures
        tokens@ == owned_tokens(
            owner_views(owners@),
            account@,
            listing_start(
                match prev {
                    Some(p) => Some(number_or_zero(encode_utf8(nat_display(*p)))),
                    None => Some(0u64),
                },
            ),
            match take {
                Some(t) => number_or_zero(encode_utf8(nat_display(*t))) as nat,
                None => 100,
            },
        ),
{
    let take_value: u64 = match take {
        Some(t) => nat_to_u64(t),
        None => 100,
    };
    let start_from: u64 = match prev {
        Some(p) => nat_to_u64(p),
        None => 0,
    };
    tokens_of(owners, account, Some(start_from), take_value)
}

/// A sum of counts, kept to 64 bits.
pub open spec fn one_more(n: u64) -> u64 {
    ((n + 1) % 0x1_0000_0000_0000_0000) as u64
}

/// The token that is minted from the given description at the time `now`
/// under the number `token_id`.
pub open spec fn minted(description: TokenMetadataView, token_id: u64, now: u64) -> TokenMetadataView {
    TokenMetadataView { token_id, created_at: now, ..description }
}

/// What minting stores: the token, the number of the next token and the new
/// balance of the owner.
pub struct Minted {
    pub token: TokenMetadata,
    pub next_token_id: u64,
    pub balance: u64,
}

/// Mints a token from a description: the token gets the next number and the
/// current time, and the owner, who holds `balance` tokens if any, one
/// more.
pub fn mint(next_token_id: u64, balance: Option<u64>, metadata: TokenMetadata, current_time: u64) -> (r:
    Minted)
    ensures
        r.token@ == minted(metadata@, next_token_id, current_time),
        r.next_token_id == one_more(next_token_id),
        r.balance == one_more(
            match balance {
                Some(b) => b,
                None => 0,
            },
        ),
{
    let held: u64 = match balance {
        Some(b) => b,
        None => 0,
    };
    Minted {
        token: TokenMetadata {
            token_id: next_token_id,
            name: metadata.name,
            description: metadata.description,
            image: metadata.image,
            attributes: metadata.attributes,
            created_at: current_time,
        },
        next_token_id: next_token_id.wrapping_add(1),
        balance: held.wrapping_add(1),
    }
}

} // verus!
