use egui_screenshot_testing::frame::FrameDriver;

fn viewport(width: f32, height: f32) -> egui::RawInput {
    egui::RawInput {
        screen_rect: Some(egui::Rect::from_min_max(egui::Pos2::default(), egui::Pos2::new(width, height))),
        ..Default::default()
    }
}

fn settling_shapes(n: usize) -> Vec<egui::epaint::ClippedShape> {
    let mut driver = FrameDriver::new(egui::Context::default());
    let mut frame = 0usize;
    let mut ui = |ctx: &egui::Context| {
        frame += 1;
        egui::CentralPanel::default().show(ctx, |ui| {
            ui.heading("Hello World");
            if frame > 1 {
                ui.label("Clicked 0 times");
            }
        });
    };
    driver.run_frames(&viewport(150.0, 100.0), n, &mut ui);
    driver.take_frame().0
}

#[test]
fn run_frames_calls_ui_once_per_frame() {
    let mut driver = FrameDriver::new(egui::Context::default());
    let mut calls = 0usize;
    let mut ui = |_ctx: &egui::Context| calls += 1;
    driver.run_frames(&viewport(150.0, 100.0), 5, &mut ui);
    assert_eq!(calls, 5);
}

#[test]
fn zero_frames_run_nothing() {
    let mut driver = FrameDriver::new(egui::Context::default());
    let mut calls = 0usize;
    let mut ui = |_ctx: &egui::Context| calls += 1;
    driver.run_frames(&viewport(150.0, 100.0), 0, &mut ui);
    assert_eq!(calls, 0);
    let (shapes, delta) = driver.take_frame();
    assert!(shapes.is_empty());
    assert!(delta.is_empty());
}

#[test]
fn texture_changes_of_all_frames_are_kept() {
    let mut driver = FrameDriver::new(egui::Context::default());
    let mut ui = |ctx: &egui::Context| {
        egui::CentralPanel::default().show(ctx, |ui| {
            ui.heading("Hello World");
        });
    };
    driver.run_frames(&viewport(150.0, 100.0), 3, &mut ui);
    let (_shapes, delta) = driver.take_frame();
    // The font atlas is set up in the first frame; later frames must not drop it.
    assert!(!delta.set.is_empty());
    let (_, after) = driver.take_frame();
    assert!(after.is_empty());
}

#[test]
fn further_frames_after_settling_change_nothing() {
    let settled = settling_shapes(2);
    assert!(!settled.is_empty());
    for n in 3..6 {
        assert_eq!(settling_shapes(n), settled);
    }
}

#[test]
fn first_frame_alone_has_not_settled() {
    assert_ne!(settling_shapes(1), settling_shapes(2));
}

fn noop_shape() -> egui::epaint::ClippedShape {
    egui::epaint::ClippedShape { clip_rect: egui::Rect::EVERYTHING, shape: egui::Shape::Noop }
}

fn freeing(ids: &[u64]) -> egui::TexturesDelta {
    egui::TexturesDelta { set: Vec::new(), free: ids.iter().map(|&i| egui::TextureId::Managed(i)).collect() }
}

#[test]
fn absorb_replaces_shapes_and_appends_texture_changes() {
    let mut driver = FrameDriver::new(egui::Context::default());
    driver.absorb(vec![noop_shape(), noop_shape()], freeing(&[1, 2]));
    driver.absorb(vec![noop_shape()], freeing(&[3]));
    let (shapes, delta) = driver.take_frame();
    assert_eq!(shapes, vec![noop_shape()]);
    assert_eq!(
        delta.free,
        vec![egui::TextureId::Managed(1), egui::TextureId::Managed(2), egui::TextureId::Managed(3)]
    );
}

#[test]
fn second_take_hands_out_nothing() {
    let mut driver = FrameDriver::new(egui::Context::default());
    let mut ui = |ctx: &egui::Context| {
        egui::CentralPanel::default().show(ctx, |ui| {
            ui.heading("Hello World");
        });
    };
    driver.run_frames(&viewport(150.0, 100.0), 2, &mut ui);
    let (shapes, _) = driver.take_frame();
    assert!(!shapes.is_empty());
    let (shapes, delta) = driver.take_frame();
    assert!(shapes.is_empty());
    assert!(delta.is_empty());
}
