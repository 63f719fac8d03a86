use fractal::kernel::{color_of_count, escape_step};
use fractal::render::{execute_command, render_frame, RenderCommand, RenderParameters, CHUNK_LEN};
use fractal::Buffer;

fn params(iterations: u32) -> RenderParameters {
    RenderParameters {
        iterations,
        cx_bits: (-0.6f32).to_bits(),
        cy_bits: 0.5f32.to_bits(),
    }
}

fn index_kernel(_: RenderParameters, (x, y): (usize, usize), (w, _): (usize, usize)) -> u32 {
    (y * w + x) as u32
}

fn orbit_never_escapes(p: RenderParameters, _: (usize, usize), _: (usize, usize)) -> u32 {
    let mut remaining = p.iterations;
    while let Some(next) = escape_step(remaining, true) {
        remaining = next;
    }
    color_of_count(remaining, p.iterations)
}

#[test]
fn every_pixel_gets_its_own_coordinate() {
    let mut b = Buffer::new(200, 100);
    assert!(200 * 100 > 2 * CHUNK_LEN);
    render_frame(&mut b, params(110), &index_kernel);
    assert_eq!(b.width(), 200);
    assert_eq!(b.height(), 100);
    assert_eq!(b.as_slice().len(), 200 * 100);
    for (i, &p) in b.as_slice().iter().enumerate() {
        assert_eq!(p, i as u32);
    }
}

#[test]
fn non_square_frame_maps_rows_by_width() {
    let mut b = Buffer::new(800, 600);
    render_frame(&mut b, params(110), &|_: RenderParameters, (_, y): (usize, usize), _: (usize, usize)| y as u32);
    assert_eq!(b.as_slice()[0], 0);
    assert_eq!(b.as_slice()[800 * 600 - 1], 599);
    assert_eq!(b.as_slice()[800 * 300 + 17], 300);
}

#[test]
fn quit_stops_the_worker() {
    assert!(execute_command(RenderCommand::Quit, &index_kernel).is_none());
}

#[test]
fn render_request_keeps_the_frame_shape() {
    let command = RenderCommand::RenderRequest {
        buffer: Buffer::new(64, 48),
        params: params(110),
    };
    let out = execute_command(command, &index_kernel).unwrap();
    assert_eq!(out.width(), 64);
    assert_eq!(out.height(), 48);
    assert_eq!(out.as_slice().len(), 64 * 48);
    assert_eq!(out.as_slice()[64 * 48 - 1], 64 * 48 - 1);
}

#[test]
fn unit_budget_renders_uniform_white() {
    let command = RenderCommand::RenderRequest {
        buffer: Buffer::new(800, 600),
        params: params(1),
    };
    let out = execute_command(command, &orbit_never_escapes).unwrap();
    assert!(out.as_slice().iter().all(|&p| p == 0xFFFF_FFFF));
}
