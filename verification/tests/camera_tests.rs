use cgmath::{perspective, Deg, InnerSpace, Matrix4, Point3, SquareMatrix, Vector3, Vector4};
use wexp::camera::{
    opengl_to_wgpu_matrix, Aspect, Camera, CameraUniform, Matrix, FORTY_FIVE, HUNDRED, ONE_TENTH,
    TWO,
};

fn to_floats(m: Matrix) -> [[f32; 4]; 4] {
    m.map(|column| column.map(f32::from_bits))
}

fn to_bits(m: Matrix4<f32>) -> Matrix {
    let floats: [[f32; 4]; 4] = m.into();
    floats.map(|column| column.map(f32::to_bits))
}

fn point(bits: [u32; 3]) -> Point3<f32> {
    Point3::new(f32::from_bits(bits[0]), f32::from_bits(bits[1]), f32::from_bits(bits[2]))
}

fn vector(bits: [u32; 3]) -> Vector3<f32> {
    Vector3::new(f32::from_bits(bits[0]), f32::from_bits(bits[1]), f32::from_bits(bits[2]))
}

fn projection(camera: &Camera) -> Matrix4<f32> {
    let aspect = camera.aspect.width as f32 / camera.aspect.height as f32;
    perspective(
        Deg(f32::from_bits(camera.fovy)),
        aspect,
        f32::from_bits(camera.znear),
        f32::from_bits(camera.zfar),
    )
}

fn vp_mat(camera: &Camera) -> Matrix4<f32> {
    let view = Matrix4::look_at_rh(point(camera.eye), point(camera.target), vector(camera.up));
    Matrix4::from(to_floats(opengl_to_wgpu_matrix())) * projection(camera) * view
}

#[test]
fn camera_constants_are_the_bit_patterns_they_name() {
    assert_eq!(TWO, 2.0f32.to_bits());
    assert_eq!(FORTY_FIVE, 45.0f32.to_bits());
    assert_eq!(ONE_TENTH, 0.1f32.to_bits());
    assert_eq!(HUNDRED, 100.0f32.to_bits());
}

#[test]
fn new_camera_has_the_fixed_parameters() {
    let camera = Camera::new(Aspect { width: 450, height: 400 });
    assert_eq!(point(camera.eye), Point3::new(0.0, 2.0, 2.0));
    assert_eq!(point(camera.target), Point3::new(0.0, 0.0, 0.0));
    assert_eq!(vector(camera.up), Vector3::unit_y());
    assert_eq!(camera.aspect, Aspect { width: 450, height: 400 });
    assert_eq!(f32::from_bits(camera.fovy), 45.0);
    assert_eq!(f32::from_bits(camera.znear), 0.1);
    assert_eq!(f32::from_bits(camera.zfar), 100.0);
}

#[test]
fn fresh_uniform_is_the_identity() {
    let uniform = CameraUniform::new();
    let identity: [[f32; 4]; 4] = Matrix4::<f32>::identity().into();
    assert_eq!(to_floats(uniform.vp_mat), identity);
    for c in 0..4 {
        for r in 0..4 {
            let expected = if c == r { 1.0f32 } else { 0.0f32 };
            assert_eq!(uniform.vp_mat[c][r], expected.to_bits());
        }
    }
}

#[test]
fn update_stores_the_matrix() {
    let camera = Camera::new(Aspect { width: 450, height: 400 });
    let vp = to_bits(vp_mat(&camera));
    let mut uniform = CameraUniform::new();
    assert_ne!(uniform.vp_mat, vp);
    uniform.update(vp);
    assert_eq!(uniform.vp_mat, vp);
}

#[test]
fn uniform_bytes_are_the_floats_in_memory() {
    let camera = Camera::new(Aspect { width: 450, height: 400 });
    let floats: [[f32; 4]; 4] = vp_mat(&camera).into();
    let mut uniform = CameraUniform::new();
    uniform.update(to_bits(vp_mat(&camera)));
    let bytes = uniform.bytes();
    assert_eq!(bytes.len(), 64);
    assert_eq!(bytes, bytemuck::cast_slice::<[[f32; 4]; 4], u8>(&[floats]));
}

#[test]
fn identity_bytes_put_one_on_the_diagonal() {
    let bytes = CameraUniform::new().bytes();
    for word in 0..16 {
        let expected = if word % 5 == 0 { 1.0f32 } else { 0.0f32 };
        assert_eq!(&bytes[4 * word..4 * word + 4], &expected.to_ne_bytes());
    }
}

#[test]
fn correction_matrix_halves_and_shifts_depth() {
    let floats = to_floats(opengl_to_wgpu_matrix());
    assert_eq!(
        floats,
        [
            [1.0, 0.0, 0.0, 0.0],
            [0.0, 1.0, 0.0, 0.0],
            [0.0, 0.0, 0.5, 0.0],
            [0.0, 0.0, 0.5, 1.0],
        ]
    );
    let corrected = Matrix4::from(floats) * Vector4::new(3.0, -7.0, -4.0, 4.0);
    assert_eq!(corrected, Vector4::new(3.0, -7.0, 0.0, 4.0));
    let corrected = Matrix4::from(floats) * Vector4::new(3.0, -7.0, 4.0, 4.0);
    assert_eq!(corrected, Vector4::new(3.0, -7.0, 4.0, 4.0));
}

#[test]
fn near_plane_has_depth_zero_and_far_plane_depth_one() {
    for (width, height) in [(450u32, 400u32), (1920, 1080), (1, 1), (300, 900)] {
        let camera = Camera::new(Aspect { width, height });
        let eye = point(camera.eye);
        let forward = (point(camera.target) - eye).normalize();
        let vp = vp_mat(&camera);
        let near = eye + forward * f32::from_bits(camera.znear);
        let far = eye + forward * f32::from_bits(camera.zfar);
        let near_clip = vp * near.to_homogeneous();
        let far_clip = vp * far.to_homogeneous();
        assert!((near_clip.z / near_clip.w).abs() < 1e-4);
        assert!((far_clip.z / far_clip.w - 1.0).abs() < 1e-4);
        let uncorrected = projection(&camera)
            * Matrix4::look_at_rh(point(camera.eye), point(camera.target), vector(camera.up));
        let near_gl = uncorrected * near.to_homogeneous();
        assert!((near_gl.z / near_gl.w + 1.0).abs() < 1e-4);
    }
}

#[test]
fn projection_reflects_the_aspect_ratio() {
    let camera = Camera::new(Aspect { width: 800, height: 600 });
    let direct = perspective(Deg(45.0f32), 800.0 / 600.0, 0.1, 100.0);
    assert_eq!(projection(&camera), direct);
    let square = Camera::new(Aspect { width: 600, height: 600 });
    let ratio = projection(&square)[0][0] / projection(&camera)[0][0];
    assert!((ratio - 800.0 / 600.0).abs() < 1e-6);
    assert_eq!(projection(&square)[1][1], projection(&camera)[1][1]);
}

#[test]
fn target_is_the_point_in_the_middle_of_the_view() {
    let camera = Camera::new(Aspect { width: 450, height: 400 });
    let clip = vp_mat(&camera) * point(camera.target).to_homogeneous();
    assert!((clip.x / clip.w).abs() < 1e-6);
    assert!((clip.y / clip.w).abs() < 1e-6);
    let depth = clip.z / clip.w;
    assert!(0.0 < depth && depth < 1.0);
    let eye_distance = (point(camera.target) - point(camera.eye)).magnitude();
    assert!((clip.w - eye_distance).abs() < 1e-5);
}
