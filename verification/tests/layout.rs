use nitidus::composite::{Composite, Node, Slot};
use nitidus::control::Control;
use nitidus::fields::TextField;
use nitidus::slots::FocusPolicy;
use nitidus::surface::{Rect, Scene};

fn step(state: &mut u64) -> u64 {
    *state = state.wrapping_mul(6364136223846793005).wrapping_add(1442695040888963407);
    *state >> 33
}

fn stack(heights: &[u16]) -> Composite {
    let slots =
        heights.iter().map(|h| Slot::always(Node::text(TextField::new("f")), *h)).collect();
    Composite::new("Stack".to_string(), FocusPolicy::BoundedCycling, slots).unwrap()
}

fn bands(scene: &Scene) -> Vec<Rect> {
    match scene {
        Scene::Panel { rows, .. } => rows.iter().map(Scene::area).collect(),
        Scene::Line { .. } => panic!("a composite is a panel"),
    }
}

#[test]
fn rows_stand_one_below_the_other_with_the_heights_asked_for() {
    let form = stack(&[2, 0, 3, 1]);
    assert_eq!(
        bands(&form.render(Rect::new(10, 20, 30, 8))),
        vec![
            Rect::new(11, 21, 28, 2),
            Rect::new(11, 23, 28, 0),
            Rect::new(11, 23, 28, 3),
            Rect::new(11, 26, 28, 1),
        ]
    );
    assert_eq!(
        bands(&form.render(Rect::new(10, 20, 30, 40))),
        vec![
            Rect::new(11, 21, 28, 2),
            Rect::new(11, 23, 28, 0),
            Rect::new(11, 23, 28, 3),
            Rect::new(11, 26, 28, 1),
        ]
    );
}

#[test]
fn rows_have_the_heights_asked_for_wherever_there_is_room() {
    let mut state = 2024u64;
    let mut with_room = 0;
    for round in 0..400 {
        let scale = if round % 2 == 0 { 9 } else { 5000 };
        let count = 1 + (step(&mut state) % 6) as usize;
        let heights: Vec<u16> = (0..count).map(|_| (step(&mut state) % scale) as u16).collect();
        let x = (step(&mut state) % 50) as u16;
        let y = if step(&mut state) % 4 == 0 {
            65500 + (step(&mut state) % 36) as u16
        } else {
            (step(&mut state) % (5 * scale)) as u16
        };
        let area = Rect::new(
            x,
            y,
            (step(&mut state) % 40) as u16,
            (step(&mut state) % (7 * scale)) as u16,
        );
        let rows = bands(&stack(&heights).render(area));
        assert_eq!(rows.len(), count);

        let top = if area.height >= 1 && y < 65535 { y + 1 } else { y };
        let inner_height = area.height.saturating_sub(2);
        let wanted: u32 = heights.iter().map(|h| u32::from(*h)).sum();
        let room = wanted <= u32::from(inner_height) && u32::from(top) + wanted <= 65535;
        let mut at = top;
        for (row, height) in rows.iter().zip(&heights) {
            assert_eq!(row.width, area.width.saturating_sub(2));
            assert!(row.y >= top);
            assert!(
                u32::from(row.y) + u32::from(row.height)
                    <= u32::from(top) + u32::from(inner_height)
            );
            if room {
                assert_eq!((row.y, row.height), (at, *height), "{area:?} {heights:?}");
                at += height;
            }
        }
        with_room += usize::from(room);
    }
    assert!(with_room > 50);
}
