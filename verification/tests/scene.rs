use yew_webgl::scene::{Command, Msg, Scene, KEY_STEP, TRIANGLE_BATCH, ZOOM_STEP};

fn batch(start: u32) -> Vec<u32> {
    (start..start + TRIANGLE_BATCH as u32).collect()
}

#[test]
fn new_scene_is_empty() {
    let s: Scene<u32> = Scene::new();
    assert_eq!(s.len(), 0);
}

#[test]
fn add_triangles_appends_a_batch() {
    let mut s = Scene::new();
    s.add_triangles(batch(0));
    assert_eq!(s.len(), 300);
    assert_eq!(*s.get(0), 0);
    assert_eq!(*s.get(299), 299);
    s.add_triangles(batch(1000));
    assert_eq!(s.len(), 600);
    assert_eq!(*s.get(300), 1000);
    assert_eq!(*s.get(599), 1299);
}

#[test]
fn remove_triangles_takes_last_batch() {
    let mut s = Scene::new();
    s.add_triangles(batch(0));
    s.add_triangles(batch(1000));
    s.remove_triangles();
    assert_eq!(s.len(), 300);
    assert_eq!(*s.get(299), 299);
}

#[test]
fn remove_triangles_on_empty_scene_does_nothing() {
    let mut s: Scene<u32> = Scene::new();
    s.remove_triangles();
    assert_eq!(s.len(), 0);
}

#[test]
fn remove_undoes_add() {
    let mut s = Scene::new();
    s.add_triangles(batch(0));
    let before: Vec<u32> = (0..s.len()).map(|i| *s.get(i)).collect();
    s.add_triangles(batch(5000));
    s.remove_triangles();
    let after: Vec<u32> = (0..s.len()).map(|i| *s.get(i)).collect();
    assert_eq!(before, after);
}

#[test]
fn set_replaces_one_triangle() {
    let mut s = Scene::new();
    s.add_triangles(batch(0));
    s.set(7, 77777);
    assert_eq!(*s.get(7), 77777);
    assert_eq!(*s.get(6), 6);
    assert_eq!(*s.get(8), 8);
    assert_eq!(s.len(), 300);
}

#[test]
fn update_render() {
    let mut s: Scene<u32> = Scene::new();
    assert_eq!(s.update(&Msg::Render), (Command::RenderFrame, false));
}

#[test]
fn update_resize() {
    let mut s: Scene<u32> = Scene::new();
    assert_eq!(s.update(&Msg::Resize), (Command::MeasureWindow, true));
}

#[test]
fn update_zoom() {
    let mut s: Scene<u32> = Scene::new();
    assert_eq!(s.update(&Msg::Zoom(true)), (Command::MoveCamera(200), false));
    assert_eq!(s.update(&Msg::Zoom(false)), (Command::MoveCamera(-200), false));
    assert_eq!(ZOOM_STEP, 200);
}

#[test]
fn update_keys() {
    let mut s: Scene<u32> = Scene::new();
    assert_eq!(s.update(&Msg::KeyPressed("w".to_string())), (Command::MoveCamera(50), false));
    assert_eq!(s.update(&Msg::KeyPressed("s".to_string())), (Command::MoveCamera(-50), false));
    assert_eq!(s.update(&Msg::KeyPressed("a".to_string())), (Command::Nothing, false));
    assert_eq!(s.update(&Msg::KeyPressed("ww".to_string())), (Command::Nothing, false));
    assert_eq!(s.update(&Msg::KeyPressed("W".to_string())), (Command::Nothing, false));
    assert_eq!(KEY_STEP, 50);
}

#[test]
fn update_add_triangles_asks_for_a_batch() {
    let mut s: Scene<u32> = Scene::new();
    assert_eq!(s.update(&Msg::AddTriangles), (Command::AddBatch, true));
    assert_eq!(s.len(), 0);
}

#[test]
fn update_remove_triangles() {
    let mut s = Scene::new();
    s.add_triangles(batch(0));
    s.add_triangles(batch(300));
    assert_eq!(s.update(&Msg::RemoveTriangles), (Command::Nothing, true));
    assert_eq!(s.len(), 300);
    assert_eq!(s.update(&Msg::RemoveTriangles), (Command::Nothing, true));
    assert_eq!(s.len(), 0);
    assert_eq!(s.update(&Msg::RemoveTriangles), (Command::Nothing, true));
    assert_eq!(s.len(), 0);
}

#[test]
fn camera_round_trips() {
    let mut s: Scene<u32> = Scene::new();
    let shift = |c: Command| match c {
        Command::MoveCamera(d) => d,
        _ => 0,
    };
    let a = shift(s.update(&Msg::Zoom(true)).0);
    let b = shift(s.update(&Msg::Zoom(false)).0);
    assert_eq!(a + b, 0);
    let c = shift(s.update(&Msg::KeyPressed("w".to_string())).0);
    let d = shift(s.update(&Msg::KeyPressed("s".to_string())).0);
    assert_eq!(c + d, 0);
}

#[test]
fn scene_always_whole_batches() {
    let mut s = Scene::new();
    for step in 0..10u32 {
        if step % 3 == 2 {
            s.update(&Msg::RemoveTriangles);
        } else {
            s.add_triangles(batch(step * 1000));
        }
        assert_eq!(s.len() % TRIANGLE_BATCH, 0);
    }
}
