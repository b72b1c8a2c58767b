use gravity_particles::uniforms::Uniforms;
use gravity_particles::uniforms::UNIFORMS_SIZE;
use gravity_particles::vector::Matrix4;
use gravity_particles::vector::Vector3;
use gravity_particles::vector::Vector4;
use gravity_particles::vector::ONE;
use gravity_particles::vector::ZERO;

fn word_at(bytes: &[u8], index: usize) -> u32 {
    let mut four = [0u8; 4];
    four.copy_from_slice(&bytes[4 * index..4 * index + 4]);
    u32::from_ne_bytes(four)
}

fn numbered() -> Uniforms {
    let column = |k: u32| Vector4 { x: k, y: k + 1, z: k + 2, w: k + 3 };
    Uniforms {
        view_proj: Matrix4 { x: column(0), y: column(4), z: column(8), w: column(12) },
        n_masses: 16,
        n_particles_requested: 17,
        n_particles: 18,
        g: 19,
        delta_time: 20,
        push: 21,
        reset: 22,
        frame: 23,
        cam_pos: Vector3 { x: 24, y: 25, z: 26 },
        padding: 27,
        random: Vector3 { x: 28, y: 29, z: 30 },
        padding2: 31,
    }
}

#[test]
fn constants_are_the_bits_of_their_numbers() {
    assert_eq!(ZERO, 0.0f32.to_bits());
    assert_eq!(ONE, 1.0f32.to_bits());
}

#[test]
fn blank_uniforms_hold_an_identity_and_zeros() {
    let u = Uniforms::new();
    let words = u.to_words();
    assert_eq!(words.len(), 32);
    for (i, word) in words.iter().enumerate() {
        let expected = if i < 16 && i % 5 == 0 { 1.0f32 } else { 0.0f32 };
        assert_eq!(*word, expected.to_bits(), "word {}", i);
    }
    assert_eq!(u.view_proj, Matrix4::identity());
    assert_eq!(u.cam_pos, Vector3::zero());
}

#[test]
fn view_projection_is_replaced_alone() {
    let mut u = numbered();
    let one = Vector4 { x: ONE, y: ONE, z: ONE, w: ONE };
    let m = Matrix4 { x: one, y: one, z: one, w: one };
    u.update_view_proj(m);
    assert_eq!(u, Uniforms { view_proj: m, ..numbered() });
}

#[test]
fn fields_follow_one_another() {
    let words = numbered().to_words();
    let expected: Vec<u32> = (0..32).collect();
    assert_eq!(words, expected);
}

#[test]
fn bytes_hold_the_words_as_the_machine_stores_them() {
    let mut u = numbered();
    u.n_particles = 0x0102_0304;
    u.padding2 = 0xfffe_fdfc;
    let bytes = u.to_bytes();
    assert_eq!(bytes.len() as u64, UNIFORMS_SIZE);
    for i in 0..32 {
        assert_eq!(word_at(&bytes, i), u.to_words()[i]);
    }
    assert_eq!(bytes[72..76], 0x0102_0304u32.to_ne_bytes());
    assert_eq!(bytes[124..128], 0xfffe_fdfcu32.to_ne_bytes());
}

#[test]
fn vectors_of_three_begin_at_sixteen_byte_boundaries() {
    let bytes = numbered().to_bytes();
    let cam = (0..32).find(|i| word_at(&bytes, *i) == 24).unwrap();
    let random = (0..32).find(|i| word_at(&bytes, *i) == 28).unwrap();
    assert_eq!((4 * cam) % 16, 0);
    assert_eq!((4 * random) % 16, 0);
}

#[test]
fn different_uniforms_give_different_bytes() {
    let a = numbered();
    let mut b = numbered();
    b.frame += 1;
    assert_ne!(a.to_bytes(), b.to_bytes());
    assert_eq!(a.to_bytes(), numbered().to_bytes());
}
