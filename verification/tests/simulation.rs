//! Tests of the arithmetic core: capacity rounding, the ping-pong pair,
//! the particle record layout, and capture-frame trimming.

use gravity_sim::capture::CaptureModule;
use gravity_sim::capture::extract_frame;
use gravity_sim::particle::Particle;
use gravity_sim::particle::particle_write_offset;
use gravity_sim::particle::INITIAL_RADIUS_MASS_BITS;
use gravity_sim::physics::PhysicsModule;
use gravity_sim::utils::multiple_of;
use gravity_sim::utils::Exists;

#[test]
fn round_up_already_aligned() {
    assert_eq!(multiple_of(4096, 256), 4096);
}

#[test]
fn round_up_to_next_workgroup() {
    assert_eq!(multiple_of(4100, 256), 4352);
}

#[test]
fn round_up_small_values() {
    assert_eq!(multiple_of(0, 256), 0);
    assert_eq!(multiple_of(1, 256), 256);
    assert_eq!(multiple_of(255, 256), 256);
    assert_eq!(multiple_of(257, 256), 512);
    assert_eq!(multiple_of(7, 1), 7);
}

#[test]
fn deferred_value_presence() {
    let slot: Exists<u32> = Exists::Absent;
    assert!(slot.is_none());
    let slot: Exists<u32> = Exists::Ready(17);
    assert!(!slot.is_none());
    assert_eq!(*slot.deref(), 17);
}

#[test]
fn ping_pong_alternates_over_dispatches() {
    let mut pm = PhysicsModule::new(4096);
    assert_eq!(pm.current, 0);
    assert_eq!(pm.particle_capacity, 4096);
    let mut expected_current = 0;
    for _ in 0..8 {
        let before = pm.current_buffer();
        let bind_group = pm.begin_pass();
        // The dispatch reads through the bind group named after the
        // previously current slot and flips the current index.
        assert_eq!(bind_group, before);
        expected_current = 1 - expected_current;
        assert_eq!(pm.current_buffer(), expected_current);
        assert_ne!(pm.current_buffer(), before);
    }
}

#[test]
fn resize_rounds_capacity_up() {
    let mut pm = PhysicsModule::new(4096);
    pm.resize_buffers(4100);
    assert_eq!(pm.particle_capacity, 4352);
    assert_eq!(pm.buffer_size_bytes(), 4352 * 24);
    pm.resize_buffers(1);
    assert_eq!(pm.particle_capacity, 256);
}

#[test]
fn generated_particle_starts_at_rest() {
    let p = Particle::generated(0x3F80_0000, 0x4000_0000);
    assert_eq!(p.velocity_x, 0);
    assert_eq!(p.velocity_y, 0);
    assert_eq!(f32::from_bits(p.velocity_x), 0.0);
    assert_eq!(f32::from_bits(p.velocity_y), 0.0);
    assert_eq!(p.radius, INITIAL_RADIUS_MASS_BITS);
    assert_eq!(p.mass, INITIAL_RADIUS_MASS_BITS);
    assert_eq!(f32::from_bits(p.radius), 0.1);
    assert_eq!(f32::from_bits(p.mass), 0.1);
    assert_eq!(p.position_x, 0x3F80_0000);
    assert_eq!(p.position_y, 0x4000_0000);
}

#[test]
fn particle_record_is_24_packed_bytes() {
    let p = Particle {
        position_x: 0x0403_0201,
        position_y: 0x0807_0605,
        velocity_x: 0x0C0B_0A09,
        velocity_y: 0x100F_0E0D,
        radius: 0x1413_1211,
        mass: 0x1817_1615,
    };
    let bytes = p.to_bytes();
    let expected: Vec<u8> = (1..=24).collect();
    assert_eq!(bytes, expected);
}

#[test]
fn generated_particle_bytes_spell_out_the_constants() {
    let p = Particle::generated(1.0f32.to_bits(), 2.0f32.to_bits());
    let bytes = p.to_bytes();
    assert_eq!(bytes.len(), 24);
    assert_eq!(&bytes[0..4], &[0x00, 0x00, 0x80, 0x3F]); // position x = 1.0
    assert_eq!(&bytes[4..8], &[0x00, 0x00, 0x00, 0x40]); // position y = 2.0
    assert_eq!(&bytes[8..16], &[0; 8]); // velocity at rest
    assert_eq!(&bytes[16..20], &[0xCD, 0xCC, 0xCC, 0x3D]); // radius = 0.1
    assert_eq!(&bytes[20..24], &[0xCD, 0xCC, 0xCC, 0x3D]); // mass = 0.1
}

#[test]
fn round_up_at_the_largest_aligned_count() {
    assert_eq!(multiple_of(0xFFFF_FF00, 256), 0xFFFF_FF00);
    assert_eq!(multiple_of(0xFFFF_FEFF, 256), 0xFFFF_FF00);
}

#[test]
fn generator_layout_interleaves_clusters() {
    // 256 particles form two clusters; member p of cluster c lands at
    // slot c + p * 2, i.e. byte offset (c + p * 2) * 24.
    assert_eq!(particle_write_offset(0, 0, 256), 0);
    assert_eq!(particle_write_offset(1, 0, 256), 24);
    assert_eq!(particle_write_offset(0, 1, 256), 48);
    assert_eq!(particle_write_offset(1, 127, 256), 255 * 24);
}

#[test]
fn generator_layout_covers_every_slot_once() {
    let n: u64 = 512;
    let clusters = n / 128;
    let mut offsets = Vec::new();
    for c in 0..clusters {
        for p in 0..128 {
            offsets.push(particle_write_offset(c, p, n));
        }
    }
    offsets.sort();
    for (i, off) in offsets.iter().enumerate() {
        assert_eq!(*off, i as u64 * 24);
    }
}

#[test]
fn capture_row_stride_is_256_aligned() {
    let c = CaptureModule::new(800, 600);
    assert!(!c.enabled);
    assert_eq!(c.padded_bytes_per_row(), 3328);
    assert_eq!(c.staging_buffer_size(), 3328 * 600);
    let c = CaptureModule::new(64, 2);
    assert_eq!(c.padded_bytes_per_row(), 256);
}

#[test]
fn capture_resize_keeps_enabled_flag() {
    let mut c = CaptureModule::new(800, 600);
    c.enabled = true;
    c.resize(1024, 768);
    assert!(c.enabled);
    assert_eq!(c.width, 1024);
    assert_eq!(c.height, 768);
    assert_eq!(c.padded_bytes_per_row(), 4096);
}

#[test]
fn extract_frame_strips_row_padding() {
    // 3x2 pixels: rows of 12 bytes padded to a 256-byte stride.
    let width = 3u32;
    let height = 2u32;
    let stride = 256usize;
    let mut data = vec![0xAAu8; stride * height as usize];
    for y in 0..height as usize {
        for i in 0..12 {
            data[y * stride + i] = (y * 12 + i) as u8;
        }
    }
    let frame = extract_frame(&data, width, height);
    assert_eq!(frame.len(), 24);
    let expected: Vec<u8> = (0..24).collect();
    assert_eq!(frame, expected);
}

#[test]
fn extracted_frames_accumulate_exact_bytes() {
    // Capturing k frames at w x h yields exactly k * w * h * 4 bytes.
    let width = 2u32;
    let height = 3u32;
    let data = vec![7u8; 256 * height as usize];
    let mut file = Vec::new();
    let k = 5;
    for _ in 0..k {
        file.extend_from_slice(&extract_frame(&data, width, height));
    }
    assert_eq!(file.len(), k * (width * height * 4) as usize);
}
