//! Cutting a document into chunks of tokens.
//!
//! A tokenizer turns a document into tokens and a run of tokens back into
//! text. A splitter walks the tokens in steps and renders a window of them
//! at each step; with an overlap, neighbouring chunks share tokens.

use std::fmt::Debug;
use vstd::prelude::*;
use vstd::string::StringExecFns;
use vstd::string::StringSliceAdditionalSpecFns;
use vstd::utf8::decode_utf8;
use vstd::utf8::encode_utf8;
use vstd::utf8::encode_utf8_decode_utf8;
use vstd::utf8::encode_utf8_valid_utf8;
use vstd::utf8::is_char_boundary;
use vstd::utf8::is_char_boundary_iff_not_is_continuation_byte;
use vstd::utf8::is_char_boundary_start_end_of_seq;
use vstd::utf8::valid_utf8_split;
use crate::text::texts;

verus! {

/// What a tokenizer can fail with.
#[derive(Debug, Clone, PartialEq, Eq)]
pub enum TokenizerError {
    /// A token would begin or end inside a character.
    SplitsCharacter,
}

/// Turns documents into tokens, and tokens into text.
pub trait Tokenizer<T: Clone> {
    /// The documents on which `tokenize` is sure to succeed.
    spec fn tokenizable(&self, doc: Seq<char>) -> bool;

    /// Whether `tokens` are the tokens of `doc`.
    spec fn tokenizes(&self, doc: Seq<char>, tokens: Seq<T>) -> bool;

    /// The tokens on which `to_string` is sure to succeed.
    spec fn renderable(&self, tokens: Seq<T>) -> bool;

    /// Whether `text` is what `tokens` read as.
    spec fn renders(&self, tokens: Seq<T>, text: Seq<char>) -> bool;

    /// The tokens of `doc`.
    fn tokenize(&self, doc: &str) -> (r: Result<Vec<T>, TokenizerError>)
        ensures
            self.tokenizable(doc@) ==> r is Ok,
            r matches Ok(tokens) ==> self.tokenizes(doc@, tokens@),
    ;

    /// The text that `tokens` read as.
    fn to_string(&self, tokens: Vec<T>) -> (r: Result<String, TokenizerError>)
        ensures
            self.renderable(tokens@) ==> r is Ok,
            r matches Ok(text) ==> self.renders(tokens@, text@),
    ;
}

/// How far the window moves from one chunk to the next: by what a chunk
/// holds beyond the overlap, and by one token at least.
pub open spec fn step_size(max_tokens_per_chunk: int, token_overlap: int) -> int {
    if max_tokens_per_chunk > token_overlap {
        max_tokens_per_chunk - token_overlap
    } else {
        1
    }
}

/// Where the chunk that starts at `start` ends: after `max_tokens_per_chunk`
/// tokens, or where the tokens end.
pub open spec fn chunk_end(start: int, max_tokens_per_chunk: int, len: int) -> int {
    if start + max_tokens_per_chunk < len {
        start + max_tokens_per_chunk
    } else {
        len
    }
}

/// Whether `count` chunks cover `len` tokens in steps of `step`: there is a
/// chunk for every multiple of the step that is below `len`, and no other.
pub open spec fn chunk_count(count: int, len: int, step: int) -> bool {
    if len <= 0 {
        count == 0
    } else {
        count >= 1 && (count - 1) * step < len <= count * step
    }
}

/// Whether `copy` holds clones of `items`, one for one.
pub open spec fn copies<T: Clone>(items: Seq<T>, copy: Seq<T>) -> bool {
    &&& copy.len() == items.len()
    &&& forall|j: int| 0 <= j < items.len() ==> cloned(#[trigger] items[j], copy[j])
}

/// Whether `text` is what `splitter` renders some copy of `window` as.
pub open spec fn renders_window<T: Clone, S: Tokenizer<T> + ?Sized>(
    splitter: &S,
    window: Seq<T>,
    text: Seq<char>,
) -> bool {
    exists|copy: Seq<T>| copies(window, copy) && #[trigger] splitter.renders(copy, text)
}

/// Whether `chunks` are the chunks of `tokens`: one for each step, each the
/// rendering of the window that starts there.
pub open spec fn splits_into<T: Clone, S: Tokenizer<T> + ?Sized>(
    splitter: &S,
    tokens: Seq<T>,
    max_tokens_per_chunk: int,
    token_overlap: int,
    chunks: Seq<String>,
) -> bool {
    let step = step_size(max_tokens_per_chunk, token_overlap);
    &&& chunk_count(chunks.len() as int, tokens.len() as int, step)
    &&& forall|k: int|
        0 <= k < chunks.len() ==> renders_window(
            splitter,
            tokens.subrange(k * step, chunk_end(k * step, max_tokens_per_chunk, tokens.len() as int)),
            #[trigger] chunks[k]@,
        )
}

/// The step for a chunk size and an overlap.
pub fn step_for(max_tokens_per_chunk: usize, token_overlap: usize) -> (r: usize)
    ensures
        r == step_size(max_tokens_per_chunk as int, token_overlap as int),
        r >= 1,
{
    if max_tokens_per_chunk > token_overlap {
        max_tokens_per_chunk - token_overlap
    } else {
        1
    }
}

/// Clones of the tokens from `start` up to `end`.
pub fn window<T: Clone>(tokens: &Vec<T>, start: usize, end: usize) -> (r: Vec<T>)
    requires
        start <= end <= tokens@.len(),
    ensures
        copies(tokens@.subrange(start as int, end as int), r@),
{
    let mut out: Vec<T> = Vec::new();
    let mut j: usize = start;
    while j < end
        invariant
            start <= j <= end <= tokens@.len(),
            out@.len() == j - start,
            forall|k: int| 0 <= k < j - start ==> cloned(#[trigger] tokens@[start + k], out@[k]),
        decreases end - j,
    {
        out.push(tokens[j].clone());
        j = j + 1;
    }
    proof {
        let part = tokens@.subrange(start as int, end as int);
        assert forall|k: int| 0 <= k < part.len() implies cloned(#[trigger] part[k], out@[k]) by {
            assert(part[k] == tokens@[start + k]);
        }
    }
    out
}

/// Cuts documents into chunks of tokens.
pub trait TextSplitter<T: Clone + Debug>: Tokenizer<T> {
    /// The chunks of `doc`: a window of at most `max_tokens_per_chunk`
    /// tokens is rendered at every step, where a step is what a chunk holds
    /// beyond `token_overlap`, and one token at least.
    fn split(&self, doc: &str, max_tokens_per_chunk: usize, token_overlap: usize) -> (r: Result<
        Vec<String>,
        TokenizerError,
    >)
        ensures
            self.tokenizable(doc@) && (forall|tokens: Seq<T>| #[trigger] self.renderable(tokens))
                ==> r is Ok,
            r matches Ok(chunks) ==> exists|tokens: Seq<T>|
                #[trigger] self.tokenizes(doc@, tokens) && splits_into(
                    self,
                    tokens,
                    max_tokens_per_chunk as int,
                    token_overlap as int,
                    chunks@,
                ),
    {
        let tokens = match self.tokenize(doc) {
            Ok(tokens) => tokens,
            Err(e) => {
                return Err(e);
            },
        };
        let step = step_for(max_tokens_per_chunk, token_overlap);
        let len = tokens.len();
        let mut chunks: Vec<String> = Vec::new();
        let mut start: usize = 0;
        proof {
            assert(0 * step == 0) by (nonlinear_arith);
        }
        while start < len
            invariant
                len == tokens@.len(),
                self.tokenizable(doc@) && (forall|tokens: Seq<T>| #[trigger] self.renderable(tokens))
                    ==> forall|tokens: Seq<T>| #[trigger] self.renderable(tokens),
                step == step_size(max_tokens_per_chunk as int, token_overlap as int),
                step >= 1,
                start <= len,
                start < len ==> start == chunks@.len() * step,
                start == len ==> chunks@.len() * step >= len,
                chunks@.len() > 0 ==> (chunks@.len() - 1) * step < len,
                forall|k: int|
                    0 <= k < chunks@.len() ==> renders_window(
                        self,
                        tokens@.subrange(
                            k * step,
                            chunk_end(k * step, max_tokens_per_chunk as int, len as int),
                        ),
                        #[trigger] chunks@[k]@,
                    ),
            decreases len - start,
        {
            let end = if max_tokens_per_chunk >= len - start {
                len
            } else {
                start + max_tokens_per_chunk
            };
            let piece = window(&tokens, start, end);
            let ghost shown = piece@;
            let text = match self.to_string(piece) {
                Ok(text) => text,
                Err(e) => {
                    return Err(e);
                },
            };
            proof {
                let k = chunks@.len() as int;
                assert(self.renders(shown, text@));
                assert((k + 1) * step == k * step + step) by (nonlinear_arith);
                assert((k + 1 - 1) * step == k * step);
            }
            chunks.push(text);
            start = if step >= len - start {
                len
            } else {
                start + step
            };
        }
        proof {
            assert(self.tokenizes(doc@, tokens@));
        }
        Ok(chunks)
    }
}

/// The texts of `tokens`, joined end to end.
pub open spec fn joined(tokens: Seq<Seq<char>>) -> Seq<char>
    decreases tokens.len(),
{
    if tokens.len() == 0 {
        Seq::empty()
    } else {
        joined(tokens.drop_last()) + tokens.last()
    }
}

/// Joins strings end to end.
pub fn join(tokens: &Vec<String>) -> (r: String)
    ensures
        r@ == joined(texts(tokens@)),
{
    let mut out = String::new();
    let mut i: usize = 0;
    while i < tokens.len()
        invariant
            i <= tokens@.len(),
            out@ == joined(texts(tokens@).take(i as int)),
        decreases tokens@.len() - i,
    {
        proof {
            let now = texts(tokens@).take(i as int + 1);
            assert(now.drop_last() =~= texts(tokens@).take(i as int));
            assert(now.last() == tokens@[i as int]@);
        }
        out.append(tokens[i].as_str());
        i = i + 1;
    }
    proof {
        assert(texts(tokens@).take(tokens@.len() as int) =~= texts(tokens@));
    }
    out
}

/// What `str::split` makes of a text and a separator, both as strings: the
/// pieces between the places where the separator is found.
pub uninterp spec fn str_split(text: Seq<char>, separator: Seq<char>) -> Seq<Seq<char>>;

/// Calls `str::split` with a string for the pattern and makes a `String` of
/// each piece. The contract claims only that the pieces are a function of
/// the text and the separator, named `str_split`.
#[verifier::external_body]
fn split_str(text: &str, separator: &str) -> (r: Vec<String>)
    ensures
        texts(r@) == str_split(text@, separator@),
{
    text.split(separator).map(|piece| piece.to_owned()).collect()
}

/// Every text of `pieces` split at `separator`, the results in a row.
pub open spec fn split_each(pieces: Seq<Seq<char>>, separator: Seq<char>) -> Seq<Seq<char>>
    decreases pieces.len(),
{
    if pieces.len() == 0 {
        Seq::empty()
    } else {
        split_each(pieces.drop_last(), separator) + str_split(pieces.last(), separator)
    }
}

/// `text` split at the first separator, the pieces at the second, and so
/// on through `separators`.
pub open spec fn split_by_all(text: Seq<char>, separators: Seq<Seq<char>>) -> Seq<Seq<char>>
    decreases separators.len(),
{
    if separators.len() == 0 {
        seq![text]
    } else {
        split_each(split_by_all(text, separators.drop_last()), separators.last())
    }
}

/// Splits every one of `pieces` at `separator`.
pub fn split_pieces(pieces: &Vec<String>, separator: &str) -> (r: Vec<String>)
    ensures
        texts(r@) == split_each(texts(pieces@), separator@),
{
    let mut out: Vec<String> = Vec::new();
    let mut i: usize = 0;
    while i < pieces.len()
        invariant
            i <= pieces@.len(),
            texts(out@) == split_each(texts(pieces@).take(i as int), separator@),
        decreases pieces@.len() - i,
    {
        let mut found = split_str(pieces[i].as_str(), separator);
        proof {
            let now = texts(pieces@).take(i as int + 1);
            assert(now.drop_last() =~= texts(pieces@).take(i as int));
            assert(now.last() == pieces@[i as int]@);
            assert(texts(out@ + found@) =~= texts(out@) + texts(found@));
        }
        out.append(&mut found);
        i = i + 1;
    }
    proof {
        assert(texts(pieces@).take(pieces@.len() as int) =~= texts(pieces@));
    }
    out
}

/// Splits at each of a list of separators in turn.
pub struct SimpleTokenizer {
    pub separators: Vec<String>,
}

impl Tokenizer<String> for SimpleTokenizer {
    open spec fn tokenizable(&self, doc: Seq<char>) -> bool {
        true
    }

    open spec fn tokenizes(&self, doc: Seq<char>, tokens: Seq<String>) -> bool {
        texts(tokens) == split_by_all(doc, texts(self.separators@))
    }

    open spec fn renderable(&self, tokens: Seq<String>) -> bool {
        true
    }

    open spec fn renders(&self, tokens: Seq<String>, text: Seq<char>) -> bool {
        text == joined(texts(tokens))
    }

    fn tokenize(&self, text: &str) -> (r: Result<Vec<String>, TokenizerError>)
        ensures
            r is Ok,
    {
        let mut found: Vec<String> = Vec::new();
        found.push(text.to_owned());
        proof {
            assert(texts(found@) =~= seq![text@]);
            assert(texts(self.separators@).take(0) =~= Seq::<Seq<char>>::empty());
        }
        let mut i: usize = 0;
        while i < self.separators.len()
            invariant
                i <= self.separators@.len(),
                texts(found@) == split_by_all(text@, texts(self.separators@).take(i as int)),
            decreases self.separators@.len() - i,
        {
            proof {
                let now = texts(self.separators@).take(i as int + 1);
                assert(now.drop_last() =~= texts(self.separators@).take(i as int));
                assert(now.last() == self.separators@[i as int]@);
            }
            found = split_pieces(&found, self.separators[i].as_str());
            i = i + 1;
        }
        proof {
            assert(texts(self.separators@).take(self.separators@.len() as int) =~= texts(
                self.separators@,
            ));
        }
        Ok(found)
    }

    fn to_string(&self, tokens: Vec<String>) -> (r: Result<String, TokenizerError>)
        ensures
            r is Ok,
    {
        Ok(join(&tokens))
    }
}

impl TextSplitter<String> for SimpleTokenizer {

}

/// A clone of a string has its text, so clones of strings read as the
/// strings do.
pub proof fn lemma_copies_of_strings(items: Seq<String>, copy: Seq<String>)
    requires
        copies(items, copy),
    ensures
        texts(copy) == texts(items),
{
    assert forall|j: int| 0 <= j < items.len() implies copy[j]@ == items[j]@ by {
        assert(cloned(items[j], copy[j]));
    }
    assert(texts(copy) =~= texts(items));
}

/// What the chunks of a simple tokenizer are, in full: the `k`th is the
/// tokens of its window, joined end to end.
pub proof fn lemma_simple_chunks(
    splitter: &SimpleTokenizer,
    tokens: Seq<String>,
    max_tokens_per_chunk: int,
    token_overlap: int,
    chunks: Seq<String>,
)
    requires
        splits_into(splitter, tokens, max_tokens_per_chunk, token_overlap, chunks),
    ensures
        forall|k: int|
            0 <= k < chunks.len() ==> (#[trigger] chunks[k])@ == joined(
                texts(
                    tokens.subrange(
                        k * step_size(max_tokens_per_chunk, token_overlap),
                        chunk_end(
                            k * step_size(max_tokens_per_chunk, token_overlap),
                            max_tokens_per_chunk,
                            tokens.len() as int,
                        ),
                    ),
                ),
            ),
{
    let step = step_size(max_tokens_per_chunk, token_overlap);
    assert forall|k: int| 0 <= k < chunks.len() implies (#[trigger] chunks[k])@ == joined(
        texts(
            tokens.subrange(k * step, chunk_end(k * step, max_tokens_per_chunk, tokens.len() as int)),
        ),
    ) by {
        let part = tokens.subrange(
            k * step,
            chunk_end(k * step, max_tokens_per_chunk, tokens.len() as int),
        );
        assert(renders_window(splitter, part, chunks[k]@));
        let copy = choose|copy: Seq<String>|
            copies(part, copy) && #[trigger] splitter.renders(copy, chunks[k]@);
        lemma_copies_of_strings(part, copy);
    }
}

/// The texts that `scraper` finds in a document: for each element that the
/// selector matches, in the order of `Html::select`, the text under it. It
/// is `None` where the selector does not parse.
pub uninterp spec fn element_texts(doc: Seq<char>, selector: Seq<char>) -> Option<Seq<Seq<char>>>;

/// Calls `scraper::Html::parse_document` on the document and
/// `scraper::Selector::parse` on the selector, then `Html::select`, and
/// collects `ElementRef::text` of each element found. The contract claims
/// that the outcome is a function of the two texts, named `element_texts`,
/// and that the universal selector `*` parses, as CSS has it.
#[verifier::external_body]
fn select_texts(doc: &str, selector: &str) -> (r: Option<Vec<String>>)
    ensures
        match r {
            Some(found) => element_texts(doc@, selector@) == Some(texts(found@)),
            None => element_texts(doc@, selector@) is None,
        },
        selector@ == UNIVERSAL@ ==> r is Some,
{
    let parsed = scraper::Html::parse_document(doc);
    match scraper::Selector::parse(selector) {
        Ok(matching) => Some(
            parsed.select(&matching).map(|element| element.text().collect::<String>()).collect(),
        ),
        Err(_) => None,
    }
}

/// The CSS selector that matches every element.
pub const UNIVERSAL: &'static str = "*";

/// Takes a document as HTML: a token is the text under an element.
pub struct HTMLSplitter;

impl Tokenizer<String> for HTMLSplitter {
    open spec fn tokenizable(&self, doc: Seq<char>) -> bool {
        true
    }

    open spec fn tokenizes(&self, doc: Seq<char>, tokens: Seq<String>) -> bool {
        element_texts(doc, UNIVERSAL@) == Some(texts(tokens))
    }

    open spec fn renderable(&self, tokens: Seq<String>) -> bool {
        true
    }

    open spec fn renders(&self, tokens: Seq<String>, text: Seq<char>) -> bool {
        text == joined(texts(tokens))
    }

    fn tokenize(&self, doc: &str) -> (r: Result<Vec<String>, TokenizerError>)
        ensures
            r is Ok,
    {
        Ok(select_texts(doc, UNIVERSAL).unwrap())
    }

    fn to_string(&self, tokens: Vec<String>) -> (r: Result<String, TokenizerError>)
        ensures
            r is Ok,
    {
        Ok(join(&tokens))
    }
}

/// The pattern of a closing tag: `</`, then one character or more that is
/// not `>`, then `>`.
pub const CLOSING_TAG: &'static str = "</[^>]+>";

/// Where `regex` finds a pattern in a text: for each of the successive
/// matches that do not overlap, the byte offset at which it ends. It is
/// `None` where the pattern does not compile.
pub uninterp spec fn regex_match_ends(pattern: Seq<char>, haystack: Seq<char>) -> Option<
    Seq<usize>,
>;

/// Calls `regex::Regex::new` on the pattern, `Regex::find_iter` on the
/// text, and `Match::end` on each match. The contract claims only that the
/// outcome is a function of the two texts, named `regex_match_ends`.
#[verifier::external_body]
fn match_ends(pattern: &str, haystack: &str) -> (r: Option<Vec<usize>>)
    ensures
        match r {
            Some(ends) => regex_match_ends(pattern@, haystack@) == Some(ends@),
            None => regex_match_ends(pattern@, haystack@) is None,
        },
{
    match regex::Regex::new(pattern) {
        Ok(compiled) => Some(compiled.find_iter(haystack).map(|found| found.end()).collect()),
        Err(_) => None,
    }
}

/// Where the piece that ends at the `k`th offset is cut from: the offset
/// before it, or the start of the text.
pub open spec fn cut_start(ends: Seq<usize>, k: int) -> int {
    if k <= 0 {
        0
    } else {
        ends[k - 1] as int
    }
}

/// Whether the bytes after the one at `start`, up to `end`, can be cut out
/// of a text with the encoding `bytes`: there is a byte to skip, and both
/// ends of the piece fall between characters.
pub open spec fn cut_ok(bytes: Seq<u8>, start: int, end: int) -> bool {
    &&& 0 <= start < end <= bytes.len()
    &&& is_char_boundary(bytes, start + 1)
    &&& is_char_boundary(bytes, end)
}

/// Whether the piece that ends at the `k`th offset can be cut.
pub open spec fn piece_ok(bytes: Seq<u8>, ends: Seq<usize>, k: int) -> bool {
    cut_ok(bytes, cut_start(ends, k), ends[k] as int)
}

/// Whether every piece can be cut.
pub open spec fn cuts_ok(bytes: Seq<u8>, ends: Seq<usize>) -> bool {
    forall|k: int| 0 <= k < ends.len() ==> #[trigger] piece_ok(bytes, ends, k)
}

/// Whether `pieces` are the pieces of the text with the encoding `bytes`
/// that end at `ends`: each runs from the second byte after the piece
/// before it, or from the second byte of the text, up to its end.
pub open spec fn pieces_of(bytes: Seq<u8>, ends: Seq<usize>, pieces: Seq<String>) -> bool {
    &&& pieces.len() == ends.len()
    &&& forall|k: int|
        0 <= k < ends.len() ==> (#[trigger] pieces[k])@ == decode_utf8(
            bytes.subrange(cut_start(ends, k) + 1, ends[k] as int),
        )
}

/// A position between characters of a text is one of any prefix that
/// reaches it.
proof fn lemma_boundary_in_prefix(bytes: Seq<u8>, at: int, end: int)
    requires
        vstd::utf8::valid_utf8(bytes),
        0 <= at <= end <= bytes.len(),
        is_char_boundary(bytes, at),
        is_char_boundary(bytes, end),
    ensures
        vstd::utf8::valid_utf8(bytes.subrange(0, end)),
        is_char_boundary(bytes.subrange(0, end), at),
{
    valid_utf8_split(bytes, end);
    let head = bytes.subrange(0, end);
    if at == end {
        is_char_boundary_start_end_of_seq(head);
    } else {
        is_char_boundary_iff_not_is_continuation_byte(bytes, at);
        is_char_boundary_iff_not_is_continuation_byte(head, at);
    }
}

/// Cuts one piece out of `input`: the bytes after the one at `start`, up to
/// `end`.
pub fn cut(input: &str, start: usize, end: usize) -> (r: String)
    requires
        cut_ok(encode_utf8(input@), start as int, end as int),
    ensures
        r@ == decode_utf8(encode_utf8(input@).subrange(start + 1, end as int)),
{
    let ghost bytes = input.spec_bytes();
    proof {
        encode_utf8_valid_utf8(input@);
        lemma_boundary_in_prefix(bytes, start + 1, end as int);
    }
    let (head, _) = input.split_at(end);
    let (_, piece) = head.split_at(start + 1);
    proof {
        assert(piece.spec_bytes() =~= bytes.subrange(start + 1, end as int));
        encode_utf8_decode_utf8(piece@);
    }
    piece.to_owned()
}

/// Whether the bytes after the one at `start`, up to `end`, can be cut out
/// of `input`.
pub fn can_cut_one(input: &str, start: usize, end: usize) -> (r: bool)
    ensures
        r == cut_ok(encode_utf8(input@), start as int, end as int),
{
    let len = input.as_bytes().len();
    if start < end && end <= len {
        input.is_char_boundary(start + 1) && input.is_char_boundary(end)
    } else {
        false
    }
}

/// Whether every piece that ends at one of `ends` can be cut out of
/// `input`.
pub fn can_cut(input: &str, ends: &Vec<usize>) -> (r: bool)
    ensures
        r == cuts_ok(encode_utf8(input@), ends@),
{
    let ghost bytes = encode_utf8(input@);
    let mut start: usize = 0;
    let mut k: usize = 0;
    while k < ends.len()
        invariant
            k <= ends@.len(),
            bytes == encode_utf8(input@),
            start == cut_start(ends@, k as int),
            forall|j: int| 0 <= j < k ==> #[trigger] piece_ok(bytes, ends@, j),
        decreases ends@.len() - k,
    {
        let end = ends[k];
        if !can_cut_one(input, start, end) {
            assert(!piece_ok(bytes, ends@, k as int));
            return false;
        }
        assert(piece_ok(bytes, ends@, k as int));
        start = end;
        k = k + 1;
    }
    true
}

/// Cuts out of `input` the pieces that end at `ends`.
pub fn cut_all(input: &str, ends: &Vec<usize>) -> (r: Vec<String>)
    requires
        cuts_ok(encode_utf8(input@), ends@),
    ensures
        pieces_of(encode_utf8(input@), ends@, r@),
{
    let mut result: Vec<String> = Vec::new();
    let mut start_index: usize = 0;
    let mut k: usize = 0;
    while k < ends.len()
        invariant
            k <= ends@.len(),
            cuts_ok(encode_utf8(input@), ends@),
            start_index == cut_start(ends@, k as int),
            result@.len() == k,
            forall|j: int|
                0 <= j < k ==> (#[trigger] result@[j])@ == decode_utf8(
                    encode_utf8(input@).subrange(cut_start(ends@, j) + 1, ends@[j] as int),
                ),
        decreases ends@.len() - k,
    {
        let end_index = ends[k];
        assert(piece_ok(encode_utf8(input@), ends@, k as int));
        result.push(cut(input, start_index, end_index));
        start_index = end_index;
        k = k + 1;
    }
    result
}

/// Takes a document as markup: a token ends where a closing tag ends.
pub struct CustomDomSplitter;

impl CustomDomSplitter {
    /// The texts that can be split: the closing tags are found, and none
    /// is followed, nor the text begun, by a character of more than one
    /// byte, of which the cut would keep a part.
    pub open spec fn splittable(input: Seq<char>) -> bool {
        regex_match_ends(CLOSING_TAG@, input) matches Some(ends) && cuts_ok(
            encode_utf8(input),
            ends,
        )
    }

    /// Whether `tokens` are the pieces of `input` that end with its closing
    /// tags. The character after a closing tag, and the first of the text,
    /// belong to no piece; nor does what follows the last closing tag.
    pub open spec fn splits(input: Seq<char>, tokens: Seq<String>) -> bool {
        regex_match_ends(CLOSING_TAG@, input) matches Some(ends) && pieces_of(
            encode_utf8(input),
            ends,
            tokens,
        )
    }

    /// Whether `input` can be split.
    pub fn is_splittable(input: &str) -> (r: bool)
        ensures
            r == Self::splittable(input@),
    {
        match match_ends(CLOSING_TAG, input) {
            Some(ends) => can_cut(input, &ends),
            None => false,
        }
    }

    /// The pieces of `input` that end with its closing tags, or `None`
    /// where it cannot be split.
    pub fn try_split_by_closing_selectors(input: &str) -> (r: Option<Vec<String>>)
        ensures
            match r {
                Some(tokens) => Self::splittable(input@) && Self::splits(input@, tokens@),
                None => !Self::splittable(input@),
            },
    {
        match match_ends(CLOSING_TAG, input) {
            Some(ends) => if can_cut(input, &ends) {
                Some(cut_all(input, &ends))
            } else {
                None
            },
            None => None,
        }
    }

    /// The pieces of `input` that end with its closing tags.
    pub fn split_by_closing_selectors(input: &str) -> (r: Vec<String>)
        requires
            Self::splittable(input@),
        ensures
            Self::splits(input@, r@),
    {
        Self::try_split_by_closing_selectors(input).unwrap()
    }
}

impl Tokenizer<String> for CustomDomSplitter {
    open spec fn tokenizable(&self, doc: Seq<char>) -> bool {
        Self::splittable(doc)
    }

    open spec fn tokenizes(&self, doc: Seq<char>, tokens: Seq<String>) -> bool {
        Self::splits(doc, tokens)
    }

    open spec fn renderable(&self, tokens: Seq<String>) -> bool {
        true
    }

    open spec fn renders(&self, tokens: Seq<String>, text: Seq<char>) -> bool {
        text == joined(texts(tokens))
    }

    fn tokenize(&self, doc: &str) -> (r: Result<Vec<String>, TokenizerError>)
        ensures
            r is Ok <==> Self::splittable(doc@),
            r is Err ==> r == Err::<Vec<String>, TokenizerError>(TokenizerError::SplitsCharacter),
    {
        match CustomDomSplitter::try_split_by_closing_selectors(doc) {
            Some(tokens) => Ok(tokens),
            None => Err(TokenizerError::SplitsCharacter),
        }
    }

    fn to_string(&self, tokens: Vec<String>) -> (r: Result<String, TokenizerError>)
        ensures
            r is Ok,
    {
        Ok(join(&tokens))
    }
}

} // verus!
