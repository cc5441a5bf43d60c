use rtl::progress::Progress;
use rtl::raster::{pack_pixel, pixel_grid};
use rtl::scene::nearest;
use rtl::trace::{exhausted, shade, Bounce, Shade};

fn key(distance: f64) -> Option<u64> {
    Some(distance.to_bits())
}

#[test]
fn it_works() {
    let result = rtl::add(2, 2);
    assert_eq!(result, 4);
}

#[test]
fn grid_is_row_major() {
    let cells = pixel_grid(3, 2);
    assert_eq!(cells, vec![(0, 0), (0, 1), (0, 2), (1, 0), (1, 1), (1, 2)]);
}

#[test]
fn grid_of_empty_image_is_empty() {
    assert!(pixel_grid(0, 5).is_empty());
    assert!(pixel_grid(5, 0).is_empty());
}

#[test]
fn pixel_packs_channels_as_rgb() {
    assert_eq!(pack_pixel(0x12, 0x34, 0x56), 0x0012_3456);
    assert_eq!(pack_pixel(255, 255, 255), 0x00ff_ffff);
    assert_eq!(pack_pixel(0, 0, 0), 0);
    assert_eq!(pack_pixel(1, 0, 0), 65536);
}

#[test]
fn nearer_of_two_spheres_wins() {
    assert_eq!(nearest(&vec![key(5.0), key(2.0)]), Some(1));
    assert_eq!(nearest(&vec![key(2.0), key(5.0)]), Some(0));
}

#[test]
fn missed_objects_are_skipped() {
    assert_eq!(nearest(&vec![None, key(3.5), None, key(4.0)]), Some(1));
}

#[test]
fn no_hit_gives_none() {
    assert_eq!(nearest(&vec![None, None]), None);
    assert_eq!(nearest(&vec![]), None);
}

#[test]
fn exact_tie_goes_to_first_inserted() {
    assert_eq!(nearest(&vec![key(7.0), key(2.0), key(2.0)]), Some(1));
}

#[test]
fn spent_depth_is_black_whatever_happens() {
    assert!(exhausted(0));
    assert!(!exhausted(1));
    assert_eq!(shade(0, Bounce::Missed), Shade::Black);
    assert_eq!(shade(0, Bounce::Absorbed), Shade::Black);
    assert_eq!(shade(0, Bounce::Scattered), Shade::Black);
}

#[test]
fn shade_follows_the_bounce() {
    assert_eq!(shade(50, Bounce::Missed), Shade::Sky);
    assert_eq!(shade(50, Bounce::Absorbed), Shade::Black);
    assert_eq!(shade(50, Bounce::Scattered), Shade::Attenuate(49));
    assert_eq!(shade(1, Bounce::Scattered), Shade::Attenuate(0));
}

#[test]
fn passes_run_until_samples_reached() {
    let mut p = Progress::new(3);
    assert_eq!(p.count(), 0);
    assert_eq!(p.next_pass(), Some(1));
    assert_eq!(p.next_pass(), Some(2));
    assert_eq!(p.next_pass(), Some(3));
    assert_eq!(p.count(), 3);
    assert_eq!(p.next_pass(), None);
    assert_eq!(p.count(), 3);
}

#[test]
fn zero_samples_runs_no_pass() {
    let mut p = Progress::new(0);
    assert_eq!(p.next_pass(), None);
    assert_eq!(p.count(), 0);
}

#[test]
fn insertion_order_keeps_the_nearest_distance() {
    let a = vec![key(4.0), None, key(2.5), key(9.0)];
    let b = vec![key(9.0), key(2.5), key(4.0), None];
    assert_eq!(a[nearest(&a).unwrap()], b[nearest(&b).unwrap()]);
    assert_eq!(nearest(&a), Some(2));
    assert_eq!(nearest(&b), Some(1));
}
