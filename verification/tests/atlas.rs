use gml_runtime::atlas::AtlasBuilder;
use gml_runtime::atlas::AtlasRef;

fn overlap(a: &AtlasRef, b: &AtlasRef) -> bool {
    a.atlas_id == b.atlas_id && a.x < b.x + b.w && b.x < a.x + a.w && a.y < b.y + b.h && b.y < a.y + a.h
}

#[test]
fn the_first_rectangle_goes_into_the_corner_of_the_first_page() {
    let mut atlas = AtlasBuilder::new(256);
    assert_eq!(atlas.page_count(), 0);
    let r = atlas.add(100, 50);
    assert_eq!(r, AtlasRef { atlas_id: 0, w: 100, h: 50, x: 0, y: 0 });
    assert_eq!(atlas.page_count(), 1);
}

#[test]
fn a_rectangle_that_fills_a_page_opens_the_next() {
    let mut atlas = AtlasBuilder::new(64);
    let a = atlas.add(64, 64);
    let b = atlas.add(64, 64);
    let c = atlas.add(1, 1);
    assert_eq!(a, AtlasRef { atlas_id: 0, w: 64, h: 64, x: 0, y: 0 });
    assert_eq!(b, AtlasRef { atlas_id: 1, w: 64, h: 64, x: 0, y: 0 });
    assert_eq!(c, AtlasRef { atlas_id: 2, w: 1, h: 1, x: 0, y: 0 });
    assert_eq!(atlas.page_count(), 3);
}

#[test]
fn a_rectangle_goes_to_the_first_page_with_room() {
    let mut atlas = AtlasBuilder::new(64);
    let a = atlas.add(64, 32);
    let b = atlas.add(64, 64);
    let c = atlas.add(64, 32);
    assert_eq!(a.atlas_id, 0);
    assert_eq!(b.atlas_id, 1);
    assert_eq!(c, AtlasRef { atlas_id: 0, w: 64, h: 32, x: 0, y: 32 });
    assert_eq!(atlas.page_count(), 2);
}

#[test]
fn rectangles_lie_inside_their_page_and_apart() {
    let mut atlas = AtlasBuilder::new(128);
    let sizes = [(50, 70), (30, 30), (128, 10), (64, 64), (1, 128), (90, 90), (17, 3), (60, 60)];
    let mut placed: Vec<AtlasRef> = vec![];
    for round in 0..4 {
        for (w, h) in sizes {
            let r = atlas.add(w, h);
            assert_eq!((r.w, r.h), (w, h));
            assert!(r.x >= 0 && r.y >= 0 && r.x + r.w <= 128 && r.y + r.h <= 128, "round {}", round);
            assert!((r.atlas_id as usize) < atlas.page_count());
            for other in placed.iter() {
                assert!(!overlap(&r, other), "{:?} overlaps {:?}", r, other);
            }
            placed.push(r);
        }
    }
}
