use vstd::prelude::*;
use vstd::utf8::{decode_utf8, encode_utf8, valid_utf8, encode_utf8_valid_utf8, encode_utf8_decode_utf8,
    decode_utf8_encode_utf8};

verus! {

/// The host's token stream: the literal source text of one syntax item,
/// with its comments and whitespace.
#[derive(Debug)]
pub struct TokenStream {
    pub value: String,
}

impl TokenStream {
    /// A token stream holding `value`.
    pub fn new(value: String) -> (r: TokenStream)
        ensures
            r.value@ == value@,
    {
        TokenStream { value }
    }
}

/// What an extension makes of an item, on the host's side.
#[derive(Debug)]
pub enum ProcMacroResult {
    /// Keep the item as it is.
    Leave,
    /// Drop the item.
    Remove,
    /// Put this code in the item's place.
    Replace { token_stream: TokenStream },
}

/// A token stream as it crosses the binary interface: the UTF-8 bytes of
/// its text and nothing else, no reference into either side's data. The
/// side that makes one owns its bytes and hands them over whole; the side
/// that receives one turns it into its own representation and then frees it
/// by the same convention it was allocated with.
#[derive(Debug)]
pub struct WireTokenStream {
    pub bytes: Vec<u8>,
}

/// An expansion result as it crosses the binary interface, under the same
/// ownership rule as [`WireTokenStream`].
#[derive(Debug)]
pub enum WireExpansionResult {
    Leave,
    Remove,
    Replace { token_stream: WireTokenStream },
}

/// Relies on `String::from_utf8`: it fails exactly on bytes that are not
/// UTF-8, and otherwise gives the text those bytes encode.
#[verifier::external_body]
fn string_from_utf8(bytes: Vec<u8>) -> (r: Option<String>)
    ensures
        r is Some <==> valid_utf8(bytes@),
        r matches Some(s) ==> s@ == decode_utf8(bytes@),
{
    String::from_utf8(bytes).ok()
}

impl WireTokenStream {
    /// The wire form of a host token stream: the UTF-8 encoding of its text.
    pub fn from_token_stream(token_stream: TokenStream) -> (r: WireTokenStream)
        ensures
            r.bytes@ == encode_utf8(token_stream.value@),
    {
        let bytes = token_stream.value.as_str().as_bytes_vec();
        WireTokenStream { bytes }
    }

    /// The host token stream that these bytes encode; `None` where they are
    /// not UTF-8.
    pub fn into_token_stream(self) -> (r: Option<TokenStream>)
        ensures
            r is Some <==> valid_utf8(self.bytes@),
            r matches Some(t) ==> t.value@ == decode_utf8(self.bytes@),
    {
        match string_from_utf8(self.bytes) {
            Some(value) => Some(TokenStream { value }),
            None => None,
        }
    }
}

impl WireExpansionResult {
    /// The wire form of a host expansion result.
    pub fn from_proc_macro_result(result: ProcMacroResult) -> (r: WireExpansionResult)
        ensures
            match (result, r) {
                (ProcMacroResult::Leave, WireExpansionResult::Leave) => true,
                (ProcMacroResult::Remove, WireExpansionResult::Remove) => true,
                (ProcMacroResult::Replace { token_stream: t }, WireExpansionResult::Replace {
                    token_stream: w,
                }) => w.bytes@ == encode_utf8(t.value@),
                _ => false,
            },
    {
        match result {
            ProcMacroResult::Leave => WireExpansionResult::Leave,
            ProcMacroResult::Remove => WireExpansionResult::Remove,
            ProcMacroResult::Replace { token_stream } => WireExpansionResult::Replace {
                token_stream: WireTokenStream::from_token_stream(token_stream),
            },
        }
    }

    /// `r` is the host result that this wire result stands for: the same
    /// kind, with replacement code decoded from its bytes; `None` where those
    /// bytes are not UTF-8.
    pub open spec fn spec_converts_to(&self, r: Option<ProcMacroResult>) -> bool {
        match (*self, r) {
            (WireExpansionResult::Leave, Some(ProcMacroResult::Leave)) => true,
            (WireExpansionResult::Remove, Some(ProcMacroResult::Remove)) => true,
            (WireExpansionResult::Replace { token_stream: w }, Some(ProcMacroResult::Replace {
                token_stream: t,
            })) => valid_utf8(w.bytes@) && t.value@ == decode_utf8(w.bytes@),
            (WireExpansionResult::Replace { token_stream: w }, None) => !valid_utf8(w.bytes@),
            _ => false,
        }
    }

    /// The host expansion result that this wire result stands for. The host
    /// does not trust the bytes an extension returns: replacement code that
    /// is not UTF-8 gives `None`, which the caller reports as a diagnostic,
    /// rather than a panic or a lossy guess at the text.
    pub fn into_proc_macro_result(self) -> (r: Option<ProcMacroResult>)
        ensures
            self.spec_converts_to(r),
    {
        match self {
            WireExpansionResult::Leave => Some(ProcMacroResult::Leave),
            WireExpansionResult::Remove => Some(ProcMacroResult::Remove),
            WireExpansionResult::Replace { token_stream } => match token_stream.into_token_stream() {
                Some(t) => Some(ProcMacroResult::Replace { token_stream: t }),
                None => None,
            },
        }
    }
}

/// Both results are absent, or of the same kind with the same text.
pub open spec fn same_result(a: Option<ProcMacroResult>, b: Option<ProcMacroResult>) -> bool {
    match (a, b) {
        (None, None) => true,
        (Some(ProcMacroResult::Leave), Some(ProcMacroResult::Leave)) => true,
        (Some(ProcMacroResult::Remove), Some(ProcMacroResult::Remove)) => true,
        (Some(ProcMacroResult::Replace { token_stream: s }), Some(ProcMacroResult::Replace {
            token_stream: t,
        })) => s.value@ == t.value@,
        _ => false,
    }
}

/// Text taken across the interface and back is the same text, character
/// for character: nothing is normalised, no comment or whitespace is lost.
/// And bytes that are UTF-8 come back as the same bytes.
pub proof fn lemma_wire_round_trip(text: Seq<char>, bytes: Seq<u8>)
    ensures
        valid_utf8(encode_utf8(text)),
        decode_utf8(encode_utf8(text)) == text,
        valid_utf8(bytes) ==> encode_utf8(decode_utf8(bytes)) == bytes,
{
    encode_utf8_valid_utf8(text);
    encode_utf8_decode_utf8(text);
    if valid_utf8(bytes) {
        decode_utf8_encode_utf8(bytes);
    }
}

} // verus!
