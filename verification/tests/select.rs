use tide::http::content::{AcceptEncoding, Encoding as Offered, EncodingProposal};
use tide_compress::{select, Codecs, Encoding};

fn accepts(list: &[(Offered, Option<f32>)], wildcard: bool) -> AcceptEncoding {
    let mut accept = AcceptEncoding::new();
    for (encoding, weight) in list {
        accept.push(EncodingProposal::new(*encoding, *weight).unwrap());
    }
    accept.set_wildcard(wildcard);
    accept
}

#[test]
fn highest_weight_among_the_available_wins() {
    let accept = accepts(&[(Offered::Brotli, Some(0.8)), (Offered::Gzip, Some(1.0))], false);
    let codecs = Codecs { brotli: false, gzip: true, deflate: true };
    assert_eq!(select(accept, &codecs), Encoding::Gzip);
}

#[test]
fn preferred_but_missing_codec_is_passed_over() {
    let accept = accepts(&[(Offered::Brotli, Some(1.0)), (Offered::Deflate, Some(0.2))], false);
    let codecs = Codecs { brotli: false, gzip: true, deflate: true };
    assert_eq!(select(accept, &codecs), Encoding::Deflate);
}

#[test]
fn weights_outrank_the_order_of_listing() {
    let accept = accepts(
        &[(Offered::Gzip, Some(0.4)), (Offered::Deflate, Some(0.6)), (Offered::Brotli, Some(0.8))],
        false,
    );
    assert_eq!(select(accept, &Codecs::all()), Encoding::Brotli);
    let accept = accepts(
        &[(Offered::Brotli, Some(0.1)), (Offered::Deflate, Some(0.6)), (Offered::Gzip, Some(0.5))],
        false,
    );
    assert_eq!(select(accept, &Codecs::all()), Encoding::Deflate);
}

#[test]
fn of_equal_entries_the_later_wins() {
    let accept =
        accepts(&[(Offered::Gzip, None), (Offered::Deflate, None), (Offered::Brotli, None)], false);
    assert_eq!(select(accept, &Codecs::all()), Encoding::Brotli);
    let accept = accepts(&[(Offered::Brotli, None), (Offered::Gzip, None)], false);
    assert_eq!(select(accept, &Codecs::all()), Encoding::Gzip);
    let accept = accepts(&[(Offered::Gzip, Some(0.5)), (Offered::Deflate, Some(0.5))], false);
    assert_eq!(select(accept, &Codecs::all()), Encoding::Deflate);
}

#[test]
fn a_weighted_entry_outranks_one_without_weight() {
    let accept = accepts(&[(Offered::Gzip, None), (Offered::Brotli, Some(0.8))], false);
    assert_eq!(select(accept, &Codecs::all()), Encoding::Brotli);
    let accept = accepts(&[(Offered::Deflate, Some(0.1)), (Offered::Gzip, None)], false);
    assert_eq!(select(accept, &Codecs::all()), Encoding::Deflate);
}

#[test]
fn no_codecs_means_identity() {
    let accept = accepts(&[(Offered::Brotli, Some(0.8)), (Offered::Gzip, Some(1.0))], false);
    assert_eq!(select(accept, &Codecs::none()), Encoding::Identity);
    let accept = accepts(&[(Offered::Gzip, None)], true);
    assert_eq!(select(accept, &Codecs::none()), Encoding::Identity);
    assert_eq!(select(accepts(&[], true), &Codecs::none()), Encoding::Identity);
    assert_eq!(select(accepts(&[], false), &Codecs::none()), Encoding::Identity);
}

#[test]
fn nothing_in_common_means_identity() {
    let accept = accepts(&[(Offered::Brotli, Some(0.8))], false);
    let codecs = Codecs { brotli: false, gzip: true, deflate: true };
    assert_eq!(select(accept, &codecs), Encoding::Identity);
    assert_eq!(select(accepts(&[], false), &Codecs::all()), Encoding::Identity);
    let accept = accepts(&[(Offered::Zstd, None), (Offered::Identity, None)], false);
    assert_eq!(select(accept, &Codecs::all()), Encoding::Identity);
}

#[test]
fn wildcard_takes_the_first_offered() {
    assert_eq!(select(accepts(&[], true), &Codecs::all()), Encoding::Brotli);
    let codecs = Codecs { brotli: false, gzip: true, deflate: true };
    assert_eq!(select(accepts(&[(Offered::Brotli, Some(0.8))], true), &codecs), Encoding::Gzip);
    let codecs = Codecs { brotli: false, gzip: false, deflate: true };
    assert_eq!(select(accepts(&[(Offered::Zstd, None)], true), &codecs), Encoding::Deflate);
}

#[test]
fn a_listed_codec_comes_before_the_wildcard() {
    let accept = accepts(&[(Offered::Deflate, Some(0.1))], true);
    assert_eq!(select(accept, &Codecs::all()), Encoding::Deflate);
}

#[test]
fn identity_in_the_list_is_never_an_algorithm() {
    let accept = accepts(&[(Offered::Identity, Some(1.0)), (Offered::Gzip, Some(0.5))], false);
    assert_eq!(select(accept, &Codecs::all()), Encoding::Gzip);
    let accept = accepts(&[(Offered::Identity, Some(1.0))], false);
    assert_eq!(select(accept, &Codecs::all()), Encoding::Identity);
}
