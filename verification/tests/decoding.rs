use bevy_easy_gif::asset::remaining_loops;
use bevy_easy_gif::asset::GifAsset;
use bevy_easy_gif::asset::GifFrame;
use bevy_easy_gif::canvas::blank_canvas;
use bevy_easy_gif::canvas::compose_frame;
use bevy_easy_gif::canvas::next_canvas;
use bevy_easy_gif::decode::decode;
use bevy_easy_gif::decode::frame_duration_ms;
use bevy_easy_gif::decode::frame_from_raw;
use bevy_easy_gif::decode::GifLoaderError;
use bevy_easy_gif::stream::Disposal;
use bevy_easy_gif::stream::RawFrame;
use bevy_easy_gif::stream::RepeatPolicy;
use gif::DisposalMethod;
use gif::Encoder;
use gif::Frame;
use gif::Repeat;

const PALETTE: [u8; 12] = [0, 0, 0, 255, 0, 0, 0, 255, 0, 0, 0, 255];
const CLEAR: [u8; 4] = [0, 0, 0, 0];
const RED: [u8; 4] = [255, 0, 0, 255];
const GREEN: [u8; 4] = [0, 255, 0, 255];
const BLUE: [u8; 4] = [0, 0, 255, 255];

fn part(left: u16, top: u16, width: u16, height: u16, colour: u8) -> Frame<'static> {
    let pixels = vec![colour; width as usize * height as usize];
    let mut frame = Frame::from_indexed_pixels(width, height, pixels, None);
    frame.left = left;
    frame.top = top;
    frame.delay = 5;
    frame
}

fn file(repeat: Option<Repeat>, frames: &[Frame<'static>]) -> Vec<u8> {
    let mut bytes = Vec::new();
    {
        let mut encoder = Encoder::new(&mut bytes, 4, 4, &PALETTE).unwrap();
        if let Some(repeat) = repeat {
            encoder.set_repeat(repeat).unwrap();
        }
        for frame in frames {
            encoder.write_frame(frame).unwrap();
        }
    }
    bytes
}

fn encoded(repeat: Option<Repeat>, frames: &[(u16, u16, u16, u8)]) -> Vec<u8> {
    let frames: Vec<Frame<'static>> = frames
        .iter()
        .map(|(width, height, delay, colour)| {
            let mut frame = part(0, 0, *width, *height, *colour);
            frame.delay = *delay;
            frame
        })
        .collect();
    file(repeat, &frames)
}

fn pixel(frame: &GifFrame, x: usize, y: usize) -> [u8; 4] {
    let at = (y * frame.width as usize + x) * 4;
    [frame.rgba[at], frame.rgba[at + 1], frame.rgba[at + 2], frame.rgba[at + 3]]
}

fn picture(frame: &GifFrame) -> Vec<Vec<[u8; 4]>> {
    (0..frame.height as usize)
        .map(|y| (0..frame.width as usize).map(|x| pixel(frame, x, y)).collect())
        .collect()
}

fn raw(left: u16, top: u16, width: u16, height: u16, buffer: Vec<u8>) -> RawFrame {
    RawFrame { left, top, width, height, delay: 4, dispose: Disposal::Keep, buffer }
}

#[test]
fn delay_is_ten_milliseconds_per_hundredth() {
    assert_eq!(frame_duration_ms(1), 10);
    assert_eq!(frame_duration_ms(7), 70);
    assert_eq!(frame_duration_ms(10), 100);
    assert_eq!(frame_duration_ms(u16::MAX), 655_350);
}

#[test]
fn zero_delay_becomes_one_millisecond() {
    assert_eq!(frame_duration_ms(0), 1);
}

#[test]
fn raw_frame_that_fills_the_screen_is_taken_over() {
    let canvas = blank_canvas(2, 3).unwrap();
    let frame = frame_from_raw(&canvas, 2, 3, &raw(0, 0, 2, 3, [9, 8, 7, 255].repeat(6))).unwrap();
    assert_eq!(frame.width, 2);
    assert_eq!(frame.height, 3);
    assert_eq!(frame.rgba, [9, 8, 7, 255].repeat(6));
    assert_eq!(frame.duration_ms, 40);
}

#[test]
fn raw_frame_smaller_than_the_screen_becomes_a_whole_screen() {
    let canvas = blank_canvas(3, 2).unwrap();
    let frame = frame_from_raw(&canvas, 3, 2, &raw(1, 1, 1, 1, vec![1, 2, 3, 255])).unwrap();
    assert_eq!((frame.width, frame.height), (3, 2));
    assert_eq!(frame.rgba.len(), 24);
    assert_eq!(
        picture(&frame),
        vec![vec![CLEAR, CLEAR, CLEAR], vec![CLEAR, [1, 2, 3, 255], CLEAR]]
    );
}

#[test]
fn short_buffer_is_a_size_mismatch() {
    let canvas = blank_canvas(2, 3).unwrap();
    match frame_from_raw(&canvas, 2, 3, &raw(0, 0, 2, 3, vec![0; 23])) {
        Err(GifLoaderError::SizeMismatch(actual, expected)) => {
            assert_eq!(actual, 23);
            assert_eq!(expected, 24);
        },
        other => panic!("expected a size mismatch, got {:?}", other),
    }
}

#[test]
fn long_buffer_is_a_size_mismatch() {
    let canvas = blank_canvas(1, 1).unwrap();
    assert!(matches!(
        frame_from_raw(&canvas, 1, 1, &raw(0, 0, 1, 1, vec![0; 5])),
        Err(GifLoaderError::SizeMismatch(5, 4))
    ));
}

#[test]
fn empty_frame_leaves_the_screen_as_it_is() {
    let canvas = [7, 7, 7, 255].repeat(4);
    let frame = frame_from_raw(&canvas, 2, 2, &raw(1, 0, 0, 9, vec![])).unwrap();
    assert_eq!(frame.rgba, canvas);
    assert_eq!(frame.duration_ms, 40);
}

#[test]
fn largest_frame_size_does_not_overflow() {
    let canvas = blank_canvas(1, 1).unwrap();
    assert!(matches!(
        frame_from_raw(&canvas, 1, 1, &raw(0, 0, u16::MAX, u16::MAX, vec![])),
        Err(GifLoaderError::SizeMismatch(0, 17_179_344_900))
    ));
}

#[test]
fn blank_canvas_is_black_and_transparent() {
    assert_eq!(blank_canvas(3, 2), Some(vec![0u8; 24]));
    assert_eq!(blank_canvas(0, 5), Some(vec![]));
    assert_eq!(blank_canvas(5, 0), Some(vec![]));
}

#[test]
fn compose_draws_opaque_pixels_and_keeps_what_shows_through() {
    let canvas = [10, 20, 30, 255].repeat(6);
    let over: Vec<u8> = [[1, 1, 1, 255], [2, 2, 2, 0], [3, 3, 3, 0], [4, 4, 4, 9]].concat();
    let shown = compose_frame(&canvas, 3, 2, &raw(1, 0, 2, 2, over));
    let under = [10, 20, 30, 255];
    assert_eq!(
        shown,
        [under, [1, 1, 1, 255], under, under, under, [4, 4, 4, 9]].concat()
    );
}

#[test]
fn compose_cuts_the_frame_at_the_edge_of_the_screen() {
    let canvas = blank_canvas(2, 2).unwrap();
    let over: Vec<u8> = (1..=6).flat_map(|n| [n, n, n, 255]).collect();
    let shown = compose_frame(&canvas, 2, 2, &raw(1, 1, 3, 2, over));
    assert_eq!(shown, [CLEAR, CLEAR, CLEAR, [1, 1, 1, 255]].concat());
}

#[test]
fn compose_leaves_out_a_frame_beside_the_screen() {
    let canvas = [5, 5, 5, 255].repeat(4);
    let shown = compose_frame(&canvas, 2, 2, &raw(2, 0, 1, 1, vec![1, 1, 1, 255]));
    assert_eq!(shown, canvas);
}

#[test]
fn next_canvas_follows_the_disposal() {
    let before = [1, 1, 1, 255].repeat(4);
    let mut frame = raw(0, 1, 1, 1, vec![9, 9, 9, 255]);
    let shown = compose_frame(&before, 2, 2, &frame);
    let kept = [[1, 1, 1, 255], [1, 1, 1, 255], [9, 9, 9, 255], [1, 1, 1, 255]].concat();
    assert_eq!(shown, kept);
    assert_eq!(next_canvas(before.clone(), &shown, 2, 2, &frame), kept);
    frame.dispose = Disposal::Any;
    assert_eq!(next_canvas(before.clone(), &shown, 2, 2, &frame), kept);
    frame.dispose = Disposal::Previous;
    assert_eq!(next_canvas(before.clone(), &shown, 2, 2, &frame), before);
    frame.dispose = Disposal::Background;
    assert_eq!(
        next_canvas(before.clone(), &shown, 2, 2, &frame),
        [[1, 1, 1, 255], [1, 1, 1, 255], CLEAR, [1, 1, 1, 255]].concat()
    );
}

#[test]
fn decode_gives_every_frame_as_a_whole_screen() {
    let bytes = encoded(Some(Repeat::Finite(2)), &[(2, 2, 10, 1), (4, 1, 0, 2), (1, 3, 15, 3)]);
    let gif = decode(bytes).unwrap();
    assert_eq!(gif.frames.len(), 3);
    assert_eq!(gif.repeat, RepeatPolicy::RepeatCount(2));
    for frame in &gif.frames {
        assert_eq!((frame.width, frame.height), (4, 4));
        assert_eq!(frame.rgba.len(), 64);
        assert!(frame.duration_ms > 0);
    }
    assert_eq!(gif.frames[0].duration_ms, 100);
    assert_eq!(gif.frames[1].duration_ms, 1);
    assert_eq!(gif.frames[2].duration_ms, 150);
    assert_eq!(
        picture(&gif.frames[0]),
        vec![
            vec![RED, RED, CLEAR, CLEAR],
            vec![RED, RED, CLEAR, CLEAR],
            vec![CLEAR; 4],
            vec![CLEAR; 4],
        ]
    );
    assert_eq!(
        picture(&gif.frames[1]),
        vec![
            vec![GREEN; 4],
            vec![RED, RED, CLEAR, CLEAR],
            vec![CLEAR; 4],
            vec![CLEAR; 4],
        ]
    );
    assert_eq!(
        picture(&gif.frames[2]),
        vec![
            vec![BLUE, GREEN, GREEN, GREEN],
            vec![BLUE, RED, CLEAR, CLEAR],
            vec![BLUE, CLEAR, CLEAR, CLEAR],
            vec![CLEAR; 4],
        ]
    );
}

#[test]
fn decode_lays_a_part_at_its_place() {
    let gif = decode(file(None, &[part(0, 0, 4, 4, 1), part(2, 1, 2, 2, 3)])).unwrap();
    assert_eq!(picture(&gif.frames[0]), vec![vec![RED; 4]; 4]);
    assert_eq!(
        picture(&gif.frames[1]),
        vec![
            vec![RED; 4],
            vec![RED, RED, BLUE, BLUE],
            vec![RED, RED, BLUE, BLUE],
            vec![RED; 4],
        ]
    );
}

#[test]
fn decode_cuts_a_part_that_leaves_the_screen() {
    let gif = decode(file(None, &[part(3, 3, 2, 2, 2)])).unwrap();
    assert_eq!((gif.frames[0].width, gif.frames[0].height), (4, 4));
    let mut expected = vec![vec![CLEAR; 4]; 4];
    expected[3][3] = GREEN;
    assert_eq!(picture(&gif.frames[0]), expected);
}

#[test]
fn decode_lets_earlier_frames_show_through_transparent_pixels() {
    let mut holes = Frame::from_indexed_pixels(4, 1, vec![0, 2, 0, 2], Some(0));
    holes.top = 2;
    let gif = decode(file(None, &[part(0, 0, 4, 4, 1), holes])).unwrap();
    assert_eq!(
        picture(&gif.frames[1]),
        vec![vec![RED; 4], vec![RED; 4], vec![RED, GREEN, RED, GREEN], vec![RED; 4]]
    );
}

#[test]
fn decode_clears_a_frame_that_asks_for_it() {
    let mut first = part(1, 1, 2, 2, 1);
    first.dispose = DisposalMethod::Background;
    let gif = decode(file(None, &[part(0, 0, 4, 1, 2), first, part(0, 3, 1, 1, 3)])).unwrap();
    assert_eq!(
        picture(&gif.frames[1]),
        vec![
            vec![GREEN; 4],
            vec![CLEAR, RED, RED, CLEAR],
            vec![CLEAR, RED, RED, CLEAR],
            vec![CLEAR; 4],
        ]
    );
    assert_eq!(
        picture(&gif.frames[2]),
        vec![vec![GREEN; 4], vec![CLEAR; 4], vec![CLEAR; 4], vec![BLUE, CLEAR, CLEAR, CLEAR]]
    );
}

#[test]
fn decode_restores_the_screen_after_a_frame_that_asks_for_it() {
    let mut passing = part(0, 0, 2, 2, 2);
    passing.dispose = DisposalMethod::Previous;
    let gif = decode(file(None, &[part(0, 0, 4, 4, 1), passing, part(3, 3, 1, 1, 3)])).unwrap();
    assert_eq!(
        picture(&gif.frames[1]),
        vec![
            vec![GREEN, GREEN, RED, RED],
            vec![GREEN, GREEN, RED, RED],
            vec![RED; 4],
            vec![RED; 4],
        ]
    );
    let mut last = vec![vec![RED; 4]; 4];
    last[3][3] = BLUE;
    assert_eq!(picture(&gif.frames[2]), last);
}

#[test]
fn decode_reads_an_endless_repeat() {
    let gif = decode(encoded(Some(Repeat::Infinite), &[(1, 1, 5, 0)])).unwrap();
    assert_eq!(gif.repeat, RepeatPolicy::Infinite);
}

#[test]
fn decode_without_repeat_block_plays_once() {
    let gif = decode(encoded(None, &[(1, 1, 5, 0)])).unwrap();
    assert_eq!(gif.repeat, RepeatPolicy::RepeatCount(0));
}

#[test]
fn decode_is_the_same_for_the_same_bytes() {
    let bytes = encoded(Some(Repeat::Finite(7)), &[(3, 2, 4, 1), (2, 2, 9, 3)]);
    let first = decode(bytes.clone()).unwrap();
    let second = decode(bytes).unwrap();
    assert_eq!(first.repeat, second.repeat);
    assert_eq!(first.frames.len(), second.frames.len());
    for (a, b) in first.frames.iter().zip(second.frames.iter()) {
        assert_eq!((a.width, a.height, a.duration_ms), (b.width, b.height, b.duration_ms));
        assert_eq!(a.rgba, b.rgba);
    }
}

#[test]
fn decode_rejects_bytes_that_are_no_gif() {
    assert!(matches!(decode(b"not a gif at all".to_vec()), Err(GifLoaderError::Decode(_))));
}

#[test]
fn decode_rejects_an_empty_stream() {
    assert!(matches!(decode(Vec::new()), Err(GifLoaderError::Decode(_))));
}

#[test]
fn decode_rejects_a_stream_without_frames() {
    let bytes = encoded(Some(Repeat::Finite(2)), &[]);
    assert!(bytes.len() > 13);
    match decode(bytes) {
        Err(GifLoaderError::Decode(e)) => {
            assert_eq!(e.to_string(), "file does not contain any image data");
        },
        other => panic!("expected a decode error, got {:?}", other),
    }
}

#[test]
fn decode_rejects_a_stream_cut_inside_a_frame() {
    let mut bytes = encoded(None, &[(4, 4, 1, 1), (4, 4, 1, 2)]);
    bytes.truncate(bytes.len() - 6);
    assert!(matches!(decode(bytes), Err(GifLoaderError::Decode(_))));
}

#[test]
fn repeat_policy_becomes_the_count_of_loops_left() {
    assert_eq!(remaining_loops(RepeatPolicy::Infinite), None);
    assert_eq!(remaining_loops(RepeatPolicy::RepeatCount(0)), Some(0));
    assert_eq!(remaining_loops(RepeatPolicy::RepeatCount(4)), Some(4));
    assert_eq!(remaining_loops(RepeatPolicy::RepeatCount(u16::MAX)), Some(u16::MAX));
}

#[test]
fn new_store_holds_the_frames_and_no_images() {
    let decoded = decode(encoded(Some(Repeat::Finite(3)), &[(1, 1, 2, 0), (1, 1, 3, 1)])).unwrap();
    let asset: GifAsset<u64> = GifAsset::new(decoded);
    assert_eq!(asset.frames.len(), 2);
    assert_eq!(asset.frames[1].duration_ms, 30);
    assert!(asset.handles.is_empty());
    assert!(!asset.is_populated());
    assert_eq!(asset.times, Some(3));
}

#[test]
fn new_store_of_an_endless_animation_counts_nothing() {
    let decoded = decode(encoded(Some(Repeat::Infinite), &[(1, 1, 2, 0)])).unwrap();
    let asset: GifAsset<u64> = GifAsset::new(decoded);
    assert_eq!(asset.times, None);
}
