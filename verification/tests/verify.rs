use imgflash::flash::{flash_iso, flash_iso_in_blocks, BLOCK_SIZE};
use imgflash::progress::ProgressSample;
use imgflash::verify::{verify, verify_in_blocks, VerificationJob, VerifyAction};

const MIB: usize = 1024 * 1024;

const ABC_DIGEST: [u8; 32] = [
    0xba, 0x78, 0x16, 0xbf, 0x8f, 0x01, 0xcf, 0xea, 0x41, 0x41, 0x40, 0xde, 0x5d, 0xae, 0x22, 0x23,
    0xb0, 0x03, 0x61, 0xa3, 0x96, 0x17, 0x7a, 0x9c, 0xb4, 0x10, 0xff, 0x61, 0xf2, 0x00, 0x15, 0xad,
];

fn image_bytes(len: usize) -> Vec<u8> {
    (0..len).map(|i| (i % 253) as u8 ^ (i / 253) as u8).collect()
}

fn processed(samples: &[ProgressSample]) -> Vec<u64> {
    samples.iter().map(|s| s.bytes_processed).collect()
}

#[test]
fn ten_mebibytes_verify_in_three_chunks() {
    let image = image_bytes(10 * MIB);
    let mut device = vec![0u8; 11 * MIB];
    flash_iso(&image, &mut device).unwrap();
    let (matches, samples) = verify_in_blocks(&image, &device, BLOCK_SIZE);
    assert!(matches);
    assert_eq!(processed(&samples), vec![4194304, 8388608, 10485760]);
    assert_eq!(samples.last().unwrap().percent_hundredths(), Some(10000));
    assert!(verify(&image, &device));

    let mut job = VerificationJob::new(10 * MIB as u64, BLOCK_SIZE);
    let mut reads = Vec::new();
    let mut offset = 0usize;
    let mut action = job.action();
    while let VerifyAction::Read { len } = action {
        reads.push(len);
        action = job.absorb(&image[offset..offset + len], &device[offset..offset + len]);
        offset += len;
    }
    assert_eq!(reads, vec![4194304, 4194304, 2097152]);
    let source = job.source_digest.finalize();
    let destination = job.destination_digest.finalize();
    assert_eq!(source.len(), 32);
    assert_eq!(destination.len(), 32);
    assert_eq!(source, destination);
}

#[test]
fn a_flashed_device_verifies() {
    for len in [0usize, 1, 5, 16, 17, 100] {
        for flash_block in [1usize, 4, 16, 1000] {
            for verify_block in [1usize, 3, 16, 64] {
                let image = image_bytes(len);
                let mut device = vec![0xa5u8; len + 7];
                flash_iso_in_blocks(&image, &mut device, flash_block).unwrap();
                let (matches, samples) = verify_in_blocks(&image, &device, verify_block);
                assert!(matches, "len {} blocks {} {}", len, flash_block, verify_block);
                assert_eq!(samples.len(), (len + verify_block - 1) / verify_block);
            }
        }
    }
}

#[test]
fn one_changed_byte_fails_verification() {
    let image = image_bytes(40);
    let mut device = vec![0u8; 48];
    flash_iso_in_blocks(&image, &mut device, 16).unwrap();
    for index in 0..40 {
        let mut tampered = device.clone();
        tampered[index] ^= 0x01;
        assert!(!verify_in_blocks(&image, &tampered, 16).0, "byte {}", index);
        assert!(!verify(&image, &tampered));
    }
}

#[test]
fn bytes_behind_the_image_are_not_compared() {
    let image = image_bytes(40);
    let mut device = vec![0u8; 48];
    flash_iso_in_blocks(&image, &mut device, 16).unwrap();
    for index in 40..48 {
        let mut changed = device.clone();
        changed[index] ^= 0xff;
        assert!(verify_in_blocks(&image, &changed, 16).0);
    }
}

#[test]
fn a_device_of_the_image_size_is_compared_whole() {
    let image = image_bytes(37);
    let mut device = vec![0u8; 37];
    flash_iso_in_blocks(&image, &mut device, 8).unwrap();
    let (matches, samples) = verify_in_blocks(&image, &device, 8);
    assert!(matches);
    assert_eq!(processed(&samples), vec![8, 16, 24, 32, 37]);
    device[36] ^= 0x10;
    assert!(!verify_in_blocks(&image, &device, 8).0);
}

#[test]
fn an_empty_image_verifies_against_anything() {
    for device in [vec![], vec![1u8, 2, 3], image_bytes(100)] {
        let (matches, samples) = verify_in_blocks(&[], &device, 4);
        assert!(matches);
        assert!(samples.is_empty());
        assert!(verify(&[], &device));
    }
    let job = VerificationJob::new(0, 4);
    assert_eq!(job.action(), VerifyAction::Finish);
    assert!(job.finish());
}

#[test]
fn a_device_that_ends_early_ends_the_comparison() {
    let image = image_bytes(10);
    let (matches, samples) = verify_in_blocks(&image, &image[..6], 4);
    assert!(!matches);
    assert_eq!(processed(&samples), vec![4, 8]);

    let (matches, samples) = verify_in_blocks(&image, &[], 4);
    assert!(matches);
    assert!(samples.is_empty());

    let (matches, samples) = verify_in_blocks(&image, &image[..8], 4);
    assert!(matches);
    assert_eq!(processed(&samples), vec![4, 8]);

    let mut other = image[..8].to_vec();
    other[2] ^= 1;
    assert!(!verify_in_blocks(&image, &other, 4).0);
}

#[test]
fn a_different_device_fails_verification() {
    let image = image_bytes(64);
    let device = vec![0u8; 64];
    assert!(!verify_in_blocks(&image, &device, 16).0);
    assert!(!verify(&image, &device));
}

#[test]
fn the_job_counts_what_the_image_gave() {
    let mut job = VerificationJob::new(10, 4);
    assert_eq!(job.action(), VerifyAction::Read { len: 4 });
    assert!(job.can_absorb(4, 4));
    assert!(job.can_absorb(1, 0));
    assert!(!job.can_absorb(5, 4));
    assert!(!job.can_absorb(4, 5));
    assert_eq!(job.absorb(b"abc", b"abcd"), VerifyAction::Read { len: 4 });
    assert_eq!(job.bytes_compared, 3);
    assert_eq!(job.source_digest.len(), 3);
    assert_eq!(job.destination_digest.len(), 4);
    assert_eq!(job.progress(), ProgressSample { bytes_processed: 3, bytes_total: 10 });
    assert_eq!(job.absorb(b"defg", b"efg"), VerifyAction::Read { len: 3 });
    assert_eq!(job.absorb(b"hij", b"hij"), VerifyAction::Finish);
    assert_eq!(job.bytes_compared, 10);
    assert!(!job.can_absorb(0, 0));
    assert!(job.finish());
}

#[test]
fn unequal_reads_show_as_a_mismatch() {
    let mut job = VerificationJob::new(6, 6);
    assert_eq!(job.absorb(b"abcdef", b"abc"), VerifyAction::Finish);
    assert_eq!(job.destination_digest.len(), 3);
    assert!(!job.finish());
}

#[test]
fn an_empty_read_stops_the_job() {
    let mut job = VerificationJob::new(8, 4);
    assert_eq!(job.absorb(b"abcd", b"abcd"), VerifyAction::Read { len: 4 });
    assert_eq!(job.absorb(b"efgh", b""), VerifyAction::Finish);
    assert!(job.stopped);
    assert_eq!(job.bytes_compared, 4);
    assert_eq!(job.source_digest.len(), 4);
    assert_eq!(job.action(), VerifyAction::Finish);
    assert!(job.finish());

    let mut job = VerificationJob::new(8, 4);
    assert_eq!(job.absorb(b"", b"abcd"), VerifyAction::Finish);
    assert_eq!(job.destination_digest.len(), 0);
    assert!(job.finish());
}

#[test]
fn each_digest_takes_its_own_chunk() {
    let mut job = VerificationJob::new(3, 4);
    job.absorb(b"abc", b"abd");
    assert_eq!(job.source_digest.finalize(), ABC_DIGEST);
    assert_ne!(job.destination_digest.finalize(), ABC_DIGEST);
}
