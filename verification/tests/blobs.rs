use preflight::beacon::{
    beacon_url, blobscan_url, check_status, get_and_filter_blob_data,
    get_and_filter_blob_data_beacon, get_and_filter_blob_data_by_blobscan, get_batch_blobs,
    get_blob_data, get_blob_data_beacon, get_tx_blob, receive_batch_blobs, receive_tx_blob,
    BlobReply, BlobRequest, BlobScanData, GetBlobData, GetBlobsResponse, HttpStatus,
};
use preflight::blob::{
    blob_to_bytes, blob_with_proof, calc_blob_versioned_hash, decode_blob, decode_digits,
    filter_blob_data_beacon, filter_tx_blob_beacon_with_proof, get_batch_tx_data_with_proofs,
    CommitFault, Kzg,
};
use preflight::error::{ErrorKind, Failure, PreflightError};
use preflight::types::{BlobProofType, ChainSpec, TxData, B256};

const HASH_ALONE: BlobProofType = BlobProofType::KzgVersionedHash;
const OPENED: BlobProofType = BlobProofType::ProofOfEquivalence;

/// A commitment scheme in miniature: a blob is committed to by its sum, and bytes from `f0` on
/// stand for faults.
fn kzg() -> Kzg<
    impl Fn(&Vec<u8>) -> Result<Vec<u8>, CommitFault>,
    impl Fn(&Vec<u8>) -> B256,
    impl Fn(&Vec<u8>) -> Result<Vec<u8>, String>,
    impl Fn(&Vec<u8>, &B256) -> Result<(B256, B256), String>,
    impl Fn(&Vec<u8>, &B256) -> Result<Vec<u8>, String>,
> {
    Kzg {
        blob_commitment: |blob: &Vec<u8>| match blob.first() {
            Some(0xf0) => Err(CommitFault::NotCreated),
            Some(0xf1) => Err(CommitFault::NotDeserialized),
            Some(0xf2) => Err(CommitFault::NotCommitted),
            _ => Ok(vec![sum(blob)]),
        },
        version_hash: |commitment: &Vec<u8>| hash_of(commitment[0]),
        commitment: |blob: &Vec<u8>| match blob.first() {
            Some(0xe0) => Err(String::from("no commitment")),
            _ => Ok(vec![sum(blob), 0xc0]),
        },
        equivalence: |blob: &Vec<u8>, hash: &B256| match blob.first() {
            Some(0xe1) => Err(String::from("no point")),
            _ => Ok(([hash[1].wrapping_add(1); 32], [0; 32])),
        },
        prove: |blob: &Vec<u8>, x: &B256| match blob.first() {
            Some(0xe2) => Err(String::from("no proof")),
            _ => Ok(vec![x[0], blob.len() as u8]),
        },
    }
}

fn sum(blob: &Vec<u8>) -> u8 {
    blob.iter().fold(0u8, |a, b| a.wrapping_add(*b))
}

fn hash_of(sum: u8) -> B256 {
    let mut hash = [0u8; 32];
    hash[0] = 1;
    hash[1] = sum;
    hash
}

fn texts(blobs: &[&str]) -> Vec<String> {
    blobs.iter().map(|b| String::from(*b)).collect()
}

fn response(blobs: &[&str]) -> GetBlobsResponse {
    GetBlobsResponse {
        data: blobs
            .iter()
            .enumerate()
            .map(|(i, b)| GetBlobData {
                index: format!("{i}"),
                blob: String::from(*b),
                kzg_commitment: String::from("0x01"),
                kzg_proof: String::from("0x02"),
            })
            .collect(),
    }
}

fn spec(genesis_time: u64, beacon_rpc: Option<&str>) -> ChainSpec {
    ChainSpec {
        l1_contract: None,
        genesis_time,
        seconds_per_slot: 12,
        beacon_rpc: beacon_rpc.map(String::from),
    }
}

#[test]
fn blob_text_gives_back_its_bytes() {
    assert_eq!(blob_to_bytes("0x00ff10"), vec![0x00, 0xff, 0x10]);
    assert_eq!(blob_to_bytes("00ff10"), vec![0x00, 0xff, 0x10]);
    assert_eq!(blob_to_bytes("0XABcd"), vec![0xab, 0xcd]);
    assert_eq!(blob_to_bytes("0x0x0XAB"), vec![0xab]);
    assert_eq!(blob_to_bytes("0x"), Vec::<u8>::new());
    let all: Vec<u8> = (0..=255u8).collect();
    let text: String = all.iter().map(|b| format!("{b:02X}")).collect();
    assert_eq!(blob_to_bytes(&text), all);
}

#[test]
fn text_that_is_no_hex_has_no_bytes() {
    assert_eq!(blob_to_bytes("0xabc"), Vec::<u8>::new());
    assert_eq!(blob_to_bytes("0xzz"), Vec::<u8>::new());
    assert_eq!(blob_to_bytes("ab cd"), Vec::<u8>::new());
    assert_eq!(blob_to_bytes("\u{e9}\u{e9}"), Vec::<u8>::new());
    assert_eq!(decode_blob("0xabc"), None);
    assert_eq!(decode_blob(""), Some(vec![]));
    assert_eq!(decode_digits("0x0a"), Some(vec![10]));
    assert_eq!(decode_digits("0a0"), None);
}

#[test]
fn versioned_hash_of_a_blob() {
    assert_eq!(calc_blob_versioned_hash("0x0102", &kzg()), Ok(hash_of(3)));
    assert_eq!(calc_blob_versioned_hash("0X0A0B", &kzg()), Ok(hash_of(21)));
}

#[test]
fn blob_without_a_hash_says_why() {
    let kzg = kzg();
    assert_eq!(calc_blob_versioned_hash("0x1", &kzg), Err(PreflightError::BlobNotDecoded));
    assert_eq!(calc_blob_versioned_hash("0xf0", &kzg), Err(PreflightError::BlobNotCreated));
    assert_eq!(calc_blob_versioned_hash("0xf1", &kzg), Err(PreflightError::BlobNotDeserialized));
    assert_eq!(calc_blob_versioned_hash("0xf2", &kzg), Err(PreflightError::BlobNotCommitted));
}

#[test]
fn found_blob_has_the_hash() {
    let kzg = kzg();
    let blobs = texts(&["0x01", "0x0102", "0x03", "0xf0"]);
    assert_eq!(filter_blob_data_beacon(&blobs, &hash_of(3), &kzg), Ok(vec![1, 2]));
    assert_eq!(filter_blob_data_beacon(&blobs, &hash_of(1), &kzg), Ok(vec![1]));
}

#[test]
fn search_stops_at_a_blob_without_a_hash() {
    let kzg = kzg();
    let blobs = texts(&["0x01", "0xf1", "0x03"]);
    assert_eq!(
        filter_blob_data_beacon(&blobs, &hash_of(3), &kzg),
        Err(PreflightError::BlobNotDeserialized)
    );
}

#[test]
fn blob_may_be_nowhere() {
    let kzg = kzg();
    assert_eq!(
        filter_blob_data_beacon(&texts(&["0x01"]), &hash_of(3), &kzg),
        Err(PreflightError::BlobNotFound)
    );
    assert_eq!(
        filter_blob_data_beacon(&texts(&[]), &hash_of(3), &kzg),
        Err(PreflightError::BlobNotFound)
    );
}

#[test]
fn proof_comes_where_it_is_asked_for() {
    let kzg = kzg();
    assert_eq!(
        blob_with_proof(vec![1, 2], HASH_ALONE, &kzg),
        Ok(TxData { data: vec![1, 2], commitment: Some(vec![3, 0xc0]), blob_proof: None })
    );
    assert_eq!(
        blob_with_proof(vec![1, 2], OPENED, &kzg),
        Ok(TxData { data: vec![1, 2], commitment: Some(vec![3, 0xc0]), blob_proof: Some(vec![4, 2]) })
    );
}

#[test]
fn blob_that_cannot_be_vouched_for_says_why() {
    let kzg = kzg();
    assert_eq!(
        blob_with_proof(vec![0xe0], HASH_ALONE, &kzg),
        Err(String::from("no commitment"))
    );
    assert!(blob_with_proof(vec![0xe1], HASH_ALONE, &kzg).is_ok());
    assert_eq!(blob_with_proof(vec![0xe1], OPENED, &kzg), Err(String::from("no point")));
    assert_eq!(blob_with_proof(vec![0xe2], OPENED, &kzg), Err(String::from("no proof")));
}

#[test]
fn blob_is_found_and_vouched_for() {
    let kzg = kzg();
    let blobs = texts(&["0x05", "0xe001", "0x0102"]);
    assert_eq!(
        filter_tx_blob_beacon_with_proof(&hash_of(3), &blobs, HASH_ALONE, &kzg),
        Ok(TxData { data: vec![1, 2], commitment: Some(vec![3, 0xc0]), blob_proof: None })
    );
    assert_eq!(
        filter_tx_blob_beacon_with_proof(&hash_of(4), &blobs, HASH_ALONE, &kzg),
        Err(Failure::Preflight(PreflightError::BlobNotFound))
    );
    assert_eq!(
        filter_tx_blob_beacon_with_proof(&hash_of(0xe1), &blobs, HASH_ALONE, &kzg),
        Err(Failure::Outside(String::from("no commitment")))
    );
}

#[test]
fn blobs_of_a_batch_come_in_the_order_of_their_hashes() {
    let kzg = kzg();
    let blobs = texts(&["0x05", "0x0102", "0x09"]);
    let found =
        get_batch_tx_data_with_proofs(&vec![hash_of(9), hash_of(5)], &blobs, OPENED, &kzg).unwrap();
    assert_eq!(
        found,
        vec![
            TxData { data: vec![9], commitment: Some(vec![9, 0xc0]), blob_proof: Some(vec![10, 1]) },
            TxData { data: vec![5], commitment: Some(vec![5, 0xc0]), blob_proof: Some(vec![6, 1]) },
        ]
    );
    assert_eq!(get_batch_tx_data_with_proofs(&vec![], &blobs, OPENED, &kzg), Ok(vec![]));
}

#[test]
fn blob_that_a_batch_misses_ends_the_work() {
    let kzg = kzg();
    let blobs = texts(&["0x05", "0xe001"]);
    assert_eq!(
        get_batch_tx_data_with_proofs(&vec![hash_of(5), hash_of(6), hash_of(0xe1)], &blobs, HASH_ALONE, &kzg),
        Err(Failure::Preflight(PreflightError::BlobNotFound))
    );
    assert_eq!(
        get_batch_tx_data_with_proofs(&vec![hash_of(5), hash_of(0xe1), hash_of(6)], &blobs, HASH_ALONE, &kzg),
        Err(Failure::Outside(String::from("no commitment")))
    );
}

#[test]
fn beacon_serves_blobs_by_slot() {
    assert_eq!(
        beacon_url("http://node:5052", 42),
        "http://node:5052/eth/v1/beacon/blob_sidecars/42"
    );
}

#[test]
fn blobscan_serves_blobs_by_hash() {
    let mut hash = [0u8; 32];
    hash[0] = 0x01;
    hash[31] = 0xaf;
    let digits = format!("01{}af", "00".repeat(30));
    assert_eq!(
        blobscan_url("https://api.blobscan.com/", &hash),
        format!("https://api.blobscan.com/blobs/0x{digits}")
    );
}

#[test]
fn trailing_slash_makes_no_difference() {
    assert_eq!(beacon_url("http://node//", 7), beacon_url("http://node", 7));
    assert_eq!(blobscan_url("http://b/", &[9; 32]), blobscan_url("http://b", &[9; 32]));
}

#[test]
fn slots_have_addresses_of_their_own() {
    assert_ne!(beacon_url("http://node", 1), beacon_url("http://node", 11));
    assert_ne!(beacon_url("http://node", 10), beacon_url("http://node", 100));
}

#[test]
fn blobscan_is_told_by_its_address() {
    assert_eq!(
        get_and_filter_blob_data("http://node", 5, &[0xab; 32]),
        BlobRequest::Beacon(String::from("http://node/eth/v1/beacon/blob_sidecars/5"))
    );
    assert_eq!(
        get_and_filter_blob_data("https://api.blobscan.com", 5, &[0xab; 32]),
        BlobRequest::Blobscan(format!("https://api.blobscan.com/blobs/0x{}", "ab".repeat(32)))
    );
    assert_eq!(
        get_blob_data("http://node", 5),
        Ok(String::from("http://node/eth/v1/beacon/blob_sidecars/5"))
    );
    assert_eq!(
        get_blob_data("https://api.blobscan.com", 5),
        Err(PreflightError::BlobscanUnsupported)
    );
}

#[test]
fn one_blob_is_asked_for_by_the_slot_of_its_time() {
    assert_eq!(
        get_tx_blob(&[1; 32], 1_036, &spec(1_000, Some("http://node"))),
        Ok(BlobRequest::Beacon(String::from("http://node/eth/v1/beacon/blob_sidecars/3")))
    );
    assert_eq!(
        get_tx_blob(&[1; 32], 1_036, &spec(1_000, None)),
        Err(PreflightError::NoBeaconRpc)
    );
    assert_eq!(get_tx_blob(&[1; 32], 36, &spec(0, None)), Err(PreflightError::GenesisTimeZero));
    assert_eq!(
        get_tx_blob(&[1; 32], 36, &spec(1_000, None)),
        Err(PreflightError::BlockTimeBeforeGenesis)
    );
}

#[test]
fn blobs_of_a_batch_are_asked_for_by_the_slot_of_their_time() {
    assert_eq!(
        get_batch_blobs(1_036, &spec(1_000, Some("http://node/"))),
        Ok(String::from("http://node/eth/v1/beacon/blob_sidecars/3"))
    );
    assert_eq!(get_batch_blobs(36, &spec(0, None)), Err(PreflightError::NoBeaconRpc));
    assert_eq!(
        get_batch_blobs(36, &spec(0, Some("https://blobscan.com"))),
        Err(PreflightError::GenesisTimeZero)
    );
    assert_eq!(
        get_batch_blobs(1_036, &spec(1_000, Some("https://blobscan.com"))),
        Err(PreflightError::BlobscanUnsupported)
    );
}

#[test]
fn status_of_an_answer() {
    for code in [200u16, 204, 299] {
        assert_eq!(check_status(HttpStatus { code, text: String::from("fine") }), Ok(()));
    }
    for code in [199u16, 300, 404, 500] {
        assert_eq!(
            check_status(HttpStatus { code, text: String::from("no") }),
            Err(PreflightError::RequestFailed(String::from("no")))
        );
    }
}

#[test]
fn beacon_answer_must_hold_blobs() {
    assert_eq!(get_blob_data_beacon(response(&["0x01", "0x02"])), Ok(texts(&["0x01", "0x02"])));
    assert_eq!(get_blob_data_beacon(response(&[])), Err(PreflightError::NoBlobData));
}

#[test]
fn blob_out_of_a_beacon_answer() {
    let kzg = kzg();
    assert_eq!(
        get_and_filter_blob_data_beacon(response(&["0x01", "0x0102"]), &hash_of(3), &kzg),
        Ok(vec![1, 2])
    );
    assert_eq!(
        get_and_filter_blob_data_beacon(response(&[]), &hash_of(3), &kzg),
        Err(PreflightError::NoBlobData)
    );
    assert_eq!(
        get_and_filter_blob_data_beacon(response(&["0x01"]), &hash_of(3), &kzg),
        Err(PreflightError::BlobNotFound)
    );
}

#[test]
fn blob_out_of_a_blobscan_answer() {
    let answer = BlobScanData { commitment: String::from("0x00"), data: String::from("0xFF01") };
    assert_eq!(get_and_filter_blob_data_by_blobscan(&answer), vec![0xff, 1]);
}

#[test]
fn blob_that_was_asked_for_is_received() {
    let kzg = kzg();
    let made = TxData { data: vec![1, 2], commitment: Some(vec![3, 0xc0]), blob_proof: Some(vec![4, 2]) };
    let beacon = BlobReply::Beacon(response(&["0x07", "0x0102"]));
    assert_eq!(receive_tx_blob(beacon, &hash_of(3), OPENED, &kzg), Ok(made));
    let empty = BlobReply::Beacon(response(&[]));
    assert_eq!(
        receive_tx_blob(empty, &hash_of(3), OPENED, &kzg),
        Err(Failure::Preflight(PreflightError::NoBlobData))
    );
    let answer = BlobScanData { commitment: String::new(), data: String::from("0x0707") };
    assert_eq!(
        receive_tx_blob(BlobReply::Blobscan(answer), &hash_of(3), HASH_ALONE, &kzg),
        Ok(TxData { data: vec![7, 7], commitment: Some(vec![14, 0xc0]), blob_proof: None })
    );
    let answer = BlobScanData { commitment: String::new(), data: String::from("0xe0") };
    assert_eq!(
        receive_tx_blob(BlobReply::Blobscan(answer), &hash_of(3), HASH_ALONE, &kzg),
        Err(Failure::Outside(String::from("no commitment")))
    );
}

#[test]
fn text_with_a_non_digit_has_no_bytes() {
    for text in ["zz", "0xabcg", "ab/d", "0X12 4", "0xaxbb"] {
        assert_eq!(blob_to_bytes(text), Vec::<u8>::new());
    }
}

#[test]
fn only_pairs_of_digits_have_bytes() {
    assert_eq!(decode_digits("0x0xa0"), Some(vec![0xa0]));
    assert_eq!(decode_digits("0x0xa"), None);
    assert_eq!(decode_blob("\u{212a}a"), None);
}

#[test]
fn every_spelling_has_the_hash_of_its_bytes() {
    let kzg = kzg();
    for text in ["0a0b", "0A0b", "0x0a0b", "0x0A0B", "0X0A0B", "0x0x0a0b"] {
        assert_eq!(calc_blob_versioned_hash(text, &kzg), Ok(hash_of(21)));
    }
    for text in ["0a0", "0x0A0"] {
        assert_eq!(calc_blob_versioned_hash(text, &kzg), Err(PreflightError::BlobNotDecoded));
    }
}

#[test]
fn blobs_of_a_batch_need_no_slot_without_an_address() {
    let mut spec = spec(1_000, None);
    spec.seconds_per_slot = 0;
    assert_eq!(get_batch_blobs(1_036, &spec), Err(PreflightError::NoBeaconRpc));
}

#[test]
fn batch_is_asked_for_like_one_blob() {
    for (time, genesis) in [(1_036u64, 1_000u64), (36, 1_000), (36, 0)] {
        let spec = spec(genesis, Some("http://node/"));
        assert_eq!(
            get_tx_blob(&[1; 32], time, &spec),
            get_batch_blobs(time, &spec).map(BlobRequest::Beacon)
        );
    }
}

#[test]
fn batch_of_one_hash_is_the_single_blob() {
    let kzg = kzg();
    for blobs in [vec!["0x07", "0x0102"], vec!["0x07"], vec!["0xf1", "0x0102"], vec![]] {
        let single = receive_tx_blob(BlobReply::Beacon(response(&blobs)), &hash_of(3), OPENED, &kzg);
        let batch = receive_batch_blobs(response(&blobs), &vec![hash_of(3)], OPENED, &kzg);
        assert_eq!(batch, single.map(|data| vec![data]));
    }
}

#[test]
fn batch_gives_what_each_hash_gives() {
    let kzg = kzg();
    let blobs = texts(&["0x05", "0x0102", "0x09"]);
    let hashes = vec![hash_of(9), hash_of(3), hash_of(9)];
    let all = get_batch_tx_data_with_proofs(&hashes, &blobs, OPENED, &kzg).unwrap();
    assert_eq!(all.len(), 3);
    for (i, data) in all.iter().enumerate() {
        let single = filter_tx_blob_beacon_with_proof(&hashes[i], &blobs, OPENED, &kzg).unwrap();
        assert_eq!(data, &single);
    }
    assert_eq!(all[0], all[2]);
}

#[test]
fn missing_blob_fails_the_batch() {
    let kzg = kzg();
    let wanted = vec![hash_of(5), hash_of(4)];
    assert_eq!(
        receive_batch_blobs(response(&["0x05"]), &wanted, HASH_ALONE, &kzg),
        Err(Failure::Preflight(PreflightError::BlobNotFound))
    );
    assert_eq!(
        receive_batch_blobs(response(&[]), &wanted, HASH_ALONE, &kzg),
        Err(Failure::Preflight(PreflightError::NoBlobData))
    );
}

#[test]
fn answer_is_searched_by_its_blobs() {
    let kzg = kzg();
    let blobs = ["0x05", "0x0102", "0xf0"];
    for sum in [3u8, 5, 8] {
        let mut answer = response(&blobs);
        for served in answer.data.iter_mut() {
            served.index = String::from("17");
            served.kzg_commitment = format!("0x{sum:02x}");
            served.kzg_proof = String::from("none");
        }
        assert_eq!(
            get_and_filter_blob_data_beacon(answer, &hash_of(sum), &kzg),
            filter_blob_data_beacon(&texts(&blobs), &hash_of(sum), &kzg)
        );
    }
}

#[test]
fn blob_hash_has_the_version_byte() {
    let kzg = kzg();
    for text in ["", "00", "0xffff", "0X0102"] {
        assert_eq!(calc_blob_versioned_hash(text, &kzg).unwrap()[0], 1);
    }
}

#[test]
fn blob_without_a_hash_breaks_off() {
    let kzg = kzg();
    for text in ["0x1", "zz", "f0", "f1", "f2"] {
        assert_eq!(calc_blob_versioned_hash(text, &kzg).unwrap_err().kind(), ErrorKind::Panic);
    }
}
