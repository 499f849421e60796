//! Taking a frame in: the handle, the resize request, and the pixels handed over.

use quirc::{Error, QrCoder};
use std::cell::Cell;
use std::rc::Rc;

/// A context that counts how often it is let go.
struct Counted(Rc<Cell<usize>>);

impl Drop for Counted {
    fn drop(&mut self) {
        self.0.set(self.0.get() + 1);
    }
}

#[test]
fn new_without_a_context_is_an_allocation_error() {
    let coder: Result<QrCoder<u8>, Error> = QrCoder::new(None);
    assert!(matches!(coder, Err(Error::Alloc)));
}

#[test]
fn new_keeps_the_context_it_is_given() {
    let coder = QrCoder::new(Some(41u32)).unwrap();
    assert_eq!(41, coder.0);
}

#[test]
fn context_is_released_once_with_its_coder() {
    let released = Rc::new(Cell::new(0usize));
    for round in 1..=1000usize {
        let coder = QrCoder::new(Some(Counted(released.clone()))).unwrap();
        assert_eq!(round - 1, released.get());
        drop(coder);
        assert_eq!(round, released.get());
    }
}

#[test]
fn context_outlives_an_abandoned_scan() {
    let released = Rc::new(Cell::new(0usize));
    let mut coder = QrCoder::new(Some(Counted(released.clone()))).unwrap();
    {
        let codes = coder.codes(3);
        assert_eq!(Some(0), codes.pending());
    }
    assert_eq!(0, released.get());
    {
        let codes = coder.codes(1);
        assert_eq!(Some(0), codes.pending());
    }
    assert_eq!(0, released.get());
    drop(coder);
    assert_eq!(1, released.get());
}

#[test]
fn resize_passes_small_dimensions_unchanged() {
    let coder = QrCoder::new(Some(())).unwrap();
    assert_eq!((0, 0), coder.resize(0, 0));
    assert_eq!((29, 29), coder.resize(29, 29));
    assert_eq!((640, 480), coder.resize(640, 480));
    assert_eq!((i32::MAX, 1), coder.resize(0x7fff_ffff, 1));
}

#[test]
fn resize_wraps_dimensions_beyond_the_engines_integers() {
    let coder = QrCoder::new(Some(())).unwrap();
    assert_eq!((i32::MIN, 5), coder.resize(0x8000_0000, 5));
    assert_eq!((5, -1), coder.resize(5, u32::MAX));
    assert_eq!((-2, i32::MIN + 1), coder.resize(0xffff_fffe, 0x8000_0001));
}

#[test]
fn resized_reads_a_negative_status_as_an_allocation_error() {
    let coder = QrCoder::new(Some(())).unwrap();
    assert!(matches!(coder.resized(-1), Err(Error::Alloc)));
    assert!(matches!(coder.resized(i32::MIN), Err(Error::Alloc)));
    assert!(matches!(coder.resized(0), Ok(())));
    assert!(matches!(coder.resized(1), Ok(())));
    assert!(matches!(coder.resized(i32::MAX), Ok(())));
}

#[test]
fn coder_is_usable_after_a_failed_resize() {
    let mut coder = QrCoder::new(Some(7u8)).unwrap();
    assert!(matches!(coder.resized(-1), Err(Error::Alloc)));
    assert!(matches!(coder.resized(0), Ok(())));
    let src = [1u8, 2, 3, 4];
    assert_eq!(&src[..], coder.frame(&src, 2, 2).unwrap());
    let codes = coder.codes(1);
    assert_eq!(Some(0), codes.pending());
    assert_eq!(7, *codes.engine);
}

#[test]
fn frame_of_exact_size_is_the_whole_buffer() {
    let coder = QrCoder::new(Some(())).unwrap();
    let src: Vec<u8> = (0..12u8).collect();
    let pixels = coder.frame(&src, 3, 4).unwrap();
    assert_eq!(12, pixels.len());
    assert_eq!(&src[..], pixels);
    let pixels = coder.frame(&src, 4, 3).unwrap();
    assert_eq!(&src[..], pixels);
    let pixels = coder.frame(&src, 12, 1).unwrap();
    assert_eq!(&src[..], pixels);
}

#[test]
fn frame_of_a_longer_buffer_is_its_first_pixels() {
    let coder = QrCoder::new(Some(())).unwrap();
    let src: Vec<u8> = (0..20u8).collect();
    let pixels = coder.frame(&src, 3, 4).unwrap();
    assert_eq!(&[0u8, 1, 2, 3, 4, 5, 6, 7, 8, 9, 10, 11][..], pixels);
    let pixels = coder.frame(&src, 1, 1).unwrap();
    assert_eq!(&[0u8][..], pixels);
}

#[test]
fn frame_shorter_than_its_dimensions_is_refused() {
    let coder = QrCoder::new(Some(())).unwrap();
    let src = [0u8; 11];
    assert!(matches!(coder.frame(&src, 3, 4), Err(Error::Short)));
    assert!(matches!(coder.frame(&src, 4, 3), Err(Error::Short)));
    assert!(matches!(coder.frame(&src, 12, 1), Err(Error::Short)));
    assert!(matches!(coder.frame(&src, 1, 12), Err(Error::Short)));
    assert!(matches!(coder.frame(&[], 1, 1), Err(Error::Short)));
}

#[test]
fn frame_without_pixels_is_empty() {
    let coder = QrCoder::new(Some(())).unwrap();
    let src = [9u8; 5];
    assert!(coder.frame(&src, 0, 0).unwrap().is_empty());
    assert!(coder.frame(&src, 0, 7).unwrap().is_empty());
    assert!(coder.frame(&src, 7, 0).unwrap().is_empty());
    assert!(coder.frame(&[], 0, 0).unwrap().is_empty());
    assert!(coder.frame(&[], 0, -3).unwrap().is_empty());
}

#[test]
fn frame_of_huge_dimensions_is_short_not_wrapped() {
    let coder = QrCoder::new(Some(())).unwrap();
    let src = [0u8; 16];
    assert!(matches!(coder.frame(&src, 65536, 65536), Err(Error::Short)));
    assert!(matches!(coder.frame(&src, i32::MAX, i32::MAX), Err(Error::Short)));
    assert!(matches!(coder.frame(&src, i32::MIN, i32::MIN), Err(Error::Short)));
    assert!(matches!(coder.frame(&src, 0x10000, 0x10001), Err(Error::Short)));
}

#[test]
fn frame_of_a_negative_product_is_refused() {
    let coder = QrCoder::new(Some(())).unwrap();
    let src = [0u8; 16];
    assert!(matches!(coder.frame(&src, -1, 1), Err(Error::Short)));
    assert!(matches!(coder.frame(&src, 4, -4), Err(Error::Short)));
    assert!(matches!(coder.frame(&src, i32::MIN, 1), Err(Error::Short)));
}

#[test]
fn frame_of_two_negative_dimensions_goes_by_their_product() {
    let coder = QrCoder::new(Some(())).unwrap();
    let src: Vec<u8> = (0..16u8).collect();
    assert_eq!(&src[..6], coder.frame(&src, -2, -3).unwrap());
    assert!(matches!(coder.frame(&src, -4, -5), Err(Error::Short)));
}

#[test]
fn short_frame_leaves_the_next_ingest_untouched() {
    let mut coder = QrCoder::new(Some(vec![0u8; 4])).unwrap();
    let short = [5u8; 3];
    assert!(matches!(coder.frame(&short, 2, 2), Err(Error::Short)));
    assert_eq!(vec![0u8; 4], coder.0);
    let full = [5u8, 6, 7, 8];
    let pixels = coder.frame(&full, 2, 2).unwrap();
    coder.0.copy_from_slice(pixels);
    assert_eq!(vec![5u8, 6, 7, 8], coder.0);
    let codes = coder.codes(0);
    assert_eq!(None, codes.pending());
}
