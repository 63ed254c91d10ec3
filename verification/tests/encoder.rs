use async_compression::futures::bufread::{BrotliDecoder, DeflateDecoder, GzipDecoder};
use futures_lite::future::block_on;
use futures_lite::io::Cursor;
use futures_lite::AsyncReadExt;
use tide::http::Body;
use tide_compress::{get_encoder, CompressionLevels, Encoding, Level};

fn sample(len: usize) -> Vec<u8> {
    let mut state: u32 = 12345;
    (0..len)
        .map(|i| {
            state = state.wrapping_mul(1103515245).wrapping_add(12345);
            if i % 3 == 0 {
                (state >> 16) as u8
            } else {
                b'a' + (i % 7) as u8
            }
        })
        .collect()
}

fn drain(body: Body) -> Vec<u8> {
    block_on(body.into_bytes()).unwrap()
}

fn decode(encoding: Encoding, bytes: Vec<u8>) -> Vec<u8> {
    let mut out = Vec::new();
    let source = Cursor::new(bytes);
    block_on(async {
        match encoding {
            Encoding::Brotli => BrotliDecoder::new(source).read_to_end(&mut out).await,
            Encoding::Gzip => GzipDecoder::new(source).read_to_end(&mut out).await,
            Encoding::Deflate => DeflateDecoder::new(source).read_to_end(&mut out).await,
            _ => panic!("no decoder"),
        }
    })
    .unwrap();
    out
}

fn round_trip(encoding: Encoding, level: Level, len: usize) {
    let data = sample(len);
    let levels = CompressionLevels::all(level);
    let body = get_encoder(Body::from_bytes(data.clone()), encoding, &levels);
    assert_eq!(body.len(), None);
    let packed = drain(body);
    assert_eq!(decode(encoding, packed), data);
}

#[test]
fn gzip_round_trip() {
    for level in [Level::Fastest, Level::Default, Level::Best, Level::Precise(4)] {
        round_trip(Encoding::Gzip, level, 5000);
    }
}

#[test]
fn deflate_round_trip() {
    for level in [Level::Fastest, Level::Default, Level::Best, Level::Precise(4)] {
        round_trip(Encoding::Deflate, level, 5000);
    }
}

#[test]
fn brotli_round_trip() {
    for level in [Level::Fastest, Level::Default, Level::Precise(4)] {
        round_trip(Encoding::Brotli, level, 5000);
    }
}

#[test]
fn brotli_round_trip_at_best() {
    round_trip(Encoding::Brotli, Level::Best, 2000);
}

#[test]
fn empty_body_round_trip() {
    for encoding in [Encoding::Brotli, Encoding::Gzip, Encoding::Deflate] {
        round_trip(encoding, Level::Default, 0);
    }
}

#[test]
fn one_byte_round_trip() {
    for encoding in [Encoding::Brotli, Encoding::Gzip, Encoding::Deflate] {
        round_trip(encoding, Level::Default, 1);
    }
}

#[test]
fn large_body_round_trip() {
    for encoding in [Encoding::Brotli, Encoding::Gzip, Encoding::Deflate] {
        round_trip(encoding, Level::Fastest, 1 << 20);
    }
}

#[test]
fn a_level_over_the_maximum_is_clamped() {
    for encoding in [Encoding::Brotli, Encoding::Gzip, Encoding::Deflate] {
        round_trip(encoding, Level::Precise(u32::MAX), 3000);
    }
}

#[test]
fn level_zero_still_round_trips() {
    for encoding in [Encoding::Brotli, Encoding::Gzip, Encoding::Deflate] {
        round_trip(encoding, Level::Precise(0), 3000);
    }
}

#[test]
fn gzip_output_is_a_gzip_stream() {
    let levels = CompressionLevels::default();
    let source = Body::from_string("hello".repeat(100));
    let packed = drain(get_encoder(source, Encoding::Gzip, &levels));
    assert_eq!(&packed[..3], &[0x1f, 0x8b, 0x08]);
    assert!(packed.len() < 500);
}

#[test]
fn the_level_of_the_named_algorithm_is_used() {
    let data = sample(200_000);
    let weak = CompressionLevels {
        brotli: Level::Best,
        gzip: Level::Precise(0),
        deflate: Level::Best,
    };
    let strong = CompressionLevels {
        brotli: Level::Precise(0),
        gzip: Level::Best,
        deflate: Level::Precise(0),
    };
    let stored = drain(get_encoder(Body::from_bytes(data.clone()), Encoding::Gzip, &weak));
    let packed = drain(get_encoder(Body::from_bytes(data.clone()), Encoding::Gzip, &strong));
    assert!(stored.len() > data.len());
    assert!(packed.len() < data.len());
    let stored = drain(get_encoder(Body::from_bytes(data.clone()), Encoding::Deflate, &strong));
    let packed = drain(get_encoder(Body::from_bytes(data.clone()), Encoding::Deflate, &weak));
    assert!(stored.len() > data.len());
    assert!(packed.len() < data.len());
}

#[test]
fn the_algorithms_differ() {
    let data = sample(4000);
    let levels = CompressionLevels::default();
    let gzip = drain(get_encoder(Body::from_bytes(data.clone()), Encoding::Gzip, &levels));
    let deflate = drain(get_encoder(Body::from_bytes(data.clone()), Encoding::Deflate, &levels));
    let brotli = drain(get_encoder(Body::from_bytes(data.clone()), Encoding::Brotli, &levels));
    assert_ne!(gzip, data);
    assert_ne!(deflate, data);
    assert_ne!(brotli, data);
    assert_ne!(gzip, deflate);
    assert_ne!(gzip, brotli);
    assert_eq!(gzip.len(), deflate.len() + 18);
}

#[test]
fn identity_hands_the_body_back() {
    let data = sample(300);
    let levels = CompressionLevels::all(Level::Best);
    let body = get_encoder(Body::from_bytes(data.clone()), Encoding::Identity, &levels);
    assert_eq!(body.len(), Some(300));
    assert_eq!(drain(body), data);
}

#[test]
fn a_coding_without_encoder_hands_the_body_back() {
    let data = sample(300);
    let levels = CompressionLevels::default();
    let body = get_encoder(Body::from_bytes(data.clone()), Encoding::Zstd, &levels);
    assert_eq!(body.len(), Some(300));
    assert_eq!(drain(body), data);
}

#[test]
fn a_body_of_unknown_length_is_encoded() {
    let data = sample(10_000);
    let levels = CompressionLevels::default();
    let source = Body::from_reader(Cursor::new(data.clone()), None);
    let packed = drain(get_encoder(source, Encoding::Gzip, &levels));
    assert_eq!(decode(Encoding::Gzip, packed), data);
}
