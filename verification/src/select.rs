//! The choice of a coding: what the client prefers, among what the server has.

use crate::encoding::Encoding;
use tide::http::content;
use tide::http::content::AcceptEncoding;
use vstd::prelude::*;

verus! {

/// The compression algorithms that a server has.
#[derive(Clone, Copy, Debug, PartialEq, Eq, Structural)]
pub struct Codecs {
    pub brotli: bool,
    pub gzip: bool,
    pub deflate: bool,
}

impl Codecs {
    /// The algorithms in the order in which the server offers them: Brotli,
    /// then Gzip, then Deflate.
    pub open spec fn offered(self) -> Seq<Encoding> {
        (if self.brotli {
            seq![Encoding::Brotli]
        } else {
            seq![]
        }) + (if self.gzip {
            seq![Encoding::Gzip]
        } else {
            seq![]
        }) + (if self.deflate {
            seq![Encoding::Deflate]
        } else {
            seq![]
        })
    }

    /// Whether `encoding` is one of the algorithms.
    pub open spec fn has(self, encoding: Encoding) -> bool {
        match encoding {
            Encoding::Brotli => self.brotli,
            Encoding::Gzip => self.gzip,
            Encoding::Deflate => self.deflate,
            _ => false,
        }
    }

    /// The set of all three algorithms.
    pub open spec fn every() -> Self {
        Codecs { brotli: true, gzip: true, deflate: true }
    }

    /// The empty set of algorithms.
    pub open spec fn empty() -> Self {
        Codecs { brotli: false, gzip: false, deflate: false }
    }

    /// All three algorithms.
    pub fn all() -> (r: Self)
        ensures
            r == Self::every(),
    {
        Codecs { brotli: true, gzip: true, deflate: true }
    }

    /// No algorithm: nothing is ever compressed.
    pub fn none() -> (r: Self)
        ensures
            r == Self::empty(),
    {
        Codecs { brotli: false, gzip: false, deflate: false }
    }

    /// Whether `encoding` is one of the algorithms.
    pub fn contains(&self, encoding: Encoding) -> (r: bool)
        ensures
            r == self.has(encoding),
            r == self.offered().contains(encoding),
    {
        proof {
            self.offered_holds_what_it_has(encoding);
        }
        match encoding {
            Encoding::Brotli => self.brotli,
            Encoding::Gzip => self.gzip,
            Encoding::Deflate => self.deflate,
            _ => false,
        }
    }

    /// The algorithms as a list, in the order in which they are offered.
    pub fn available(&self) -> (r: Vec<Encoding>)
        ensures
            r@ == self.offered(),
    {
        let mut list: Vec<Encoding> = Vec::new();
        if self.brotli {
            list.push(Encoding::Brotli);
        }
        if self.gzip {
            list.push(Encoding::Gzip);
        }
        if self.deflate {
            list.push(Encoding::Deflate);
        }
        assert(list@ =~= self.offered());
        list
    }

    /// The list of offered algorithms holds exactly the algorithms that the
    /// server has.
    pub proof fn offered_holds_what_it_has(self, encoding: Encoding)
        ensures
            self.offered().contains(encoding) == self.has(encoding),
    {
        let list = self.offered();
        let b: Seq<Encoding> = if self.brotli { seq![Encoding::Brotli] } else { seq![] };
        let g: Seq<Encoding> = if self.gzip { seq![Encoding::Gzip] } else { seq![] };
        let d: Seq<Encoding> = if self.deflate { seq![Encoding::Deflate] } else { seq![] };
        assert(list == b + g + d);
        if self.has(encoding) {
            match encoding {
                Encoding::Brotli => {
                    assert(list[0] == encoding);
                },
                Encoding::Gzip => {
                    assert(list[b.len() as int] == encoding);
                },
                Encoding::Deflate => {
                    assert(list[(b.len() + g.len()) as int] == encoding);
                },
                _ => {},
            }
        } else if list.contains(encoding) {
            let i = choose|i: int| 0 <= i < list.len() && list[i] == encoding;
            assert(list[i] == encoding);
        }
    }
}

/// What a client said of the codings it accepts.
pub struct Preferences {
    /// The codings that the client listed, the most preferred first.
    pub ranking: Seq<Encoding>,
    /// Whether the client also accepts any coding it did not list (`*`).
    pub wildcard: bool,
}

#[verifier::external_type_specification]
#[verifier::external_body]
pub struct ExAcceptEncoding(tide::http::content::AcceptEncoding);

/// What a parsed `Accept-Encoding` header holds. Its ranking is the order
/// into which `AcceptEncoding::sort` brings the listed codings: by falling
/// weight, a coding without a weight after all those with one, and of two
/// that rank alike the one listed later first.
pub uninterp spec fn preferences(accepts: AcceptEncoding) -> Preferences;

/// The first coding of `ranking` that `available` holds.
pub open spec fn first_available(ranking: Seq<Encoding>, available: Seq<Encoding>) -> Option<
    Encoding,
>
    decreases ranking.len(),
{
    if ranking.len() == 0 {
        None
    } else if available.contains(ranking[0]) {
        Some(ranking[0])
    } else {
        first_available(ranking.drop_first(), available)
    }
}

/// The coding on which client and server agree, if any: the client's most
/// preferred coding that the server has; failing that, with a wildcard, the
/// first coding that the server has.
pub open spec fn negotiated(prefs: Preferences, available: Seq<Encoding>) -> Option<Encoding> {
    match first_available(prefs.ranking, available) {
        Some(encoding) => Some(encoding),
        None => if prefs.wildcard && available.len() > 0 {
            Some(available[0])
        } else {
            None
        },
    }
}

/// The coding that a response gets: the negotiated one, or none.
pub open spec fn selection(prefs: Preferences, codecs: Codecs) -> Encoding {
    match negotiated(prefs, codecs.offered()) {
        Some(encoding) => encoding,
        None => Encoding::Identity,
    }
}

/// Calls `AcceptEncoding::negotiate` with `available`. The claim: the call
/// sorts the listed codings and returns the first of them that `available`
/// holds; if there is none and the header had a wildcard, the first coding of
/// `available`; else an error, which is `None` here.
#[verifier::external_body]
fn negotiate(mut accepts: AcceptEncoding, available: &Vec<Encoding>) -> (r: Option<Encoding>)
    ensures
        r == negotiated(preferences(accepts), available@),
{
    let list: Vec<content::Encoding> = available.iter().map(|e| match e {
        Encoding::Gzip => content::Encoding::Gzip,
        Encoding::Deflate => content::Encoding::Deflate,
        Encoding::Brotli => content::Encoding::Brotli,
        Encoding::Zstd => content::Encoding::Zstd,
        Encoding::Identity => content::Encoding::Identity,
    }).collect();
    match accepts.negotiate(&list).map(|chosen| chosen.encoding()) {
        Ok(content::Encoding::Gzip) => Some(Encoding::Gzip),
        Ok(content::Encoding::Deflate) => Some(Encoding::Deflate),
        Ok(content::Encoding::Brotli) => Some(Encoding::Brotli),
        Ok(content::Encoding::Zstd) => Some(Encoding::Zstd),
        Ok(content::Encoding::Identity) => Some(Encoding::Identity),
        _ => None,
    }
}

/// Chooses the coding for a response: the one that the client prefers most
/// among the server's algorithms, and `Identity` when they agree on none.
pub fn select(accepts: AcceptEncoding, codecs: &Codecs) -> (r: Encoding)
    ensures
        r == selection(preferences(accepts), *codecs),
{
    let available = codecs.available();
    match negotiate(accepts, &available) {
        Some(encoding) => encoding,
        None => Encoding::Identity,
    }
}

/// What is found in a ranking is one of the available codings.
proof fn lemma_first_available(ranking: Seq<Encoding>, available: Seq<Encoding>)
    ensures
        first_available(ranking, available) matches Some(e) ==> available.contains(e)
            && ranking.contains(e),
        first_available(ranking, available) is None ==> forall|i: int|
            0 <= i < ranking.len() ==> !available.contains(#[trigger] ranking[i]),
    decreases ranking.len(),
{
    if ranking.len() > 0 && !available.contains(ranking[0]) {
        let rest = ranking.drop_first();
        lemma_first_available(rest, available);
        match first_available(rest, available) {
            Some(e) => {
                let i = choose|i: int| 0 <= i < rest.len() && rest[i] == e;
                assert(ranking[i + 1] == e);
            },
            None => {
                assert forall|i: int| 0 <= i < ranking.len() implies !available.contains(
                    #[trigger] ranking[i],
                ) by {
                    if i > 0 {
                        assert(ranking[i] == rest[i - 1]);
                    }
                }
            },
        }
    }
}

/// The selected coding is `Identity` or one of the server's algorithms.
pub proof fn selection_is_offered(prefs: Preferences, codecs: Codecs)
    ensures
        selection(prefs, codecs) == Encoding::Identity || codecs.has(selection(prefs, codecs)),
{
    let offered = codecs.offered();
    lemma_first_available(prefs.ranking, offered);
    let chosen = selection(prefs, codecs);
    if chosen != Encoding::Identity {
        assert(offered.contains(chosen));
        codecs.offered_holds_what_it_has(chosen);
    }
}

/// A server without algorithms selects `Identity`, whatever the client said.
pub proof fn selection_without_codecs(prefs: Preferences)
    ensures
        selection(prefs, Codecs::empty()) == Encoding::Identity,
{
    selection_is_offered(prefs, Codecs::empty());
}

/// A coding that the client listed is selected only if no coding that the
/// client ranked before it is one of the server's algorithms, and the first
/// listed coding that the server has is always the one selected.
pub proof fn selection_prefers_the_ranking(prefs: Preferences, codecs: Codecs, i: int)
    requires
        0 <= i < prefs.ranking.len(),
        codecs.has(prefs.ranking[i]),
        forall|j: int| 0 <= j < i ==> !codecs.has(#[trigger] prefs.ranking[j]),
    ensures
        selection(prefs, codecs) == prefs.ranking[i],
{
    lemma_first_at(prefs.ranking, codecs, i);
}

proof fn lemma_first_at(ranking: Seq<Encoding>, codecs: Codecs, i: int)
    requires
        0 <= i < ranking.len(),
        codecs.has(ranking[i]),
        forall|j: int| 0 <= j < i ==> !codecs.has(#[trigger] ranking[j]),
    ensures
        first_available(ranking, codecs.offered()) == Some(ranking[i]),
    decreases i,
{
    codecs.offered_holds_what_it_has(ranking[0]);
    if i > 0 {
        let rest = ranking.drop_first();
        assert(!codecs.has(ranking[0]));
        assert forall|j: int| 0 <= j < i - 1 implies !codecs.has(#[trigger] rest[j]) by {
            assert(rest[j] == ranking[j + 1]);
        }
        assert(rest[i - 1] == ranking[i]);
        lemma_first_at(rest, codecs, i - 1);
    }
}

} // verus!
