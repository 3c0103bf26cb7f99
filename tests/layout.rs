use raytracer::layout::{buffer_len, pixel_position, write_pixel, CHUNK_BYTES, CHUNK_PIXELS, COLOR_CHANNELS};
use raytracer::schedule::WorkQueue;

#[test]
fn buffer_len_of_hd_frame() {
    assert_eq!(buffer_len(1280, 720), Some(2_764_800));
    assert_eq!(buffer_len(0, 720), Some(0));
    assert_eq!(buffer_len(1, 1), Some(COLOR_CHANNELS));
}

#[test]
fn buffer_len_overflow_is_none() {
    assert_eq!(buffer_len(usize::MAX, 2), None);
    assert_eq!(buffer_len(usize::MAX / 2, 1), None);
    assert_eq!(buffer_len(usize::MAX / 3, 1), Some(usize::MAX / 3 * 3));
}

#[test]
fn tile_size_constants() {
    assert_eq!(CHUNK_PIXELS, 4096);
    assert_eq!(CHUNK_BYTES, 4096 * 3);
}

#[test]
fn first_pixel_is_top_left() {
    assert_eq!(pixel_position(0, 0, 1280, 720), (0, 719));
    assert_eq!(pixel_position(0, 1279, 1280, 720), (1279, 719));
    assert_eq!(pixel_position(0, 1280, 1280, 720), (0, 718));
}

#[test]
fn pixel_of_later_tile() {
    // pixel 4096 + 5 = 4101 of a 100-wide image: column 1, row 41 from the top
    assert_eq!(pixel_position(1, 5, 100, 50), (1, 8));
}

#[test]
fn last_pixel_is_bottom_right() {
    let (w, h) = (1280usize, 720usize);
    let last = w * h - 1;
    assert_eq!(pixel_position(last / CHUNK_PIXELS, last % CHUNK_PIXELS, w, h), (1279, 0));
}

#[test]
fn positions_of_small_image_are_distinct_and_cover_it() {
    let (w, h) = (70usize, 90usize);
    let mut seen = vec![false; w * h];
    for p in 0..w * h {
        let (x, y) = pixel_position(p / CHUNK_PIXELS, p % CHUNK_PIXELS, w, h);
        assert!(x < w && y < h);
        assert!(!seen[y * w + x]);
        seen[y * w + x] = true;
    }
    assert!(seen.iter().all(|s| *s));
}

#[test]
fn write_pixel_touches_only_its_slot() {
    let mut tile = vec![7u8; 12];
    write_pixel(&mut tile, 2, [1, 2, 3]);
    assert_eq!(tile, vec![7, 7, 7, 7, 7, 7, 1, 2, 3, 7, 7, 7]);
    write_pixel(&mut tile, 0, [255, 0, 9]);
    assert_eq!(tile, vec![255, 0, 9, 7, 7, 7, 1, 2, 3, 7, 7, 7]);
}

#[test]
fn queue_hands_out_tiles_from_the_back() {
    let mut q = WorkQueue::new(vec!['a', 'b', 'c']);
    assert_eq!(q.len(), 3);
    assert_eq!(q.pop(), Some((2, 'c')));
    assert_eq!(q.pop(), Some((1, 'b')));
    assert!(!q.is_empty());
    assert_eq!(q.pop(), Some((0, 'a')));
    assert!(q.is_empty());
    assert_eq!(q.pop(), None);
    assert_eq!(q.pop(), None);
}

#[test]
fn queue_over_buffer_chunks_drains_every_tile_once() {
    let mut buffer = vec![0u8; CHUNK_BYTES * 2 + 30];
    let mut q = WorkQueue::new(buffer.chunks_mut(CHUNK_BYTES).collect::<Vec<_>>());
    let mut indices = Vec::new();
    while let Some((i, chunk)) = q.pop() {
        let slots = chunk.len() / COLOR_CHANNELS;
        for k in 0..slots {
            write_pixel(chunk, k, [i as u8 + 1, 0, 0]);
        }
        indices.push(i);
    }
    assert_eq!(indices, vec![2, 1, 0]);
    assert!(buffer[..CHUNK_BYTES].chunks(3).all(|p| p == [1, 0, 0]));
    assert!(buffer[CHUNK_BYTES..2 * CHUNK_BYTES].chunks(3).all(|p| p == [2, 0, 0]));
    assert!(buffer[2 * CHUNK_BYTES..].chunks(3).all(|p| p == [3, 0, 0]));
}
