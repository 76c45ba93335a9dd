use glium_graphics::shader::{pick_program, pick_shader, OpenGL};

fn versions() -> Vec<OpenGL> {
    vec![
        OpenGL::V2_0,
        OpenGL::V2_1,
        OpenGL::V3_0,
        OpenGL::V3_1,
        OpenGL::V3_2,
        OpenGL::V3_3,
        OpenGL::V4_0,
        OpenGL::V4_1,
        OpenGL::V4_2,
        OpenGL::V4_3,
        OpenGL::V4_4,
        OpenGL::V4_5,
    ]
}

#[test]
fn major_minor_of_every_version() {
    let numbers: Vec<(isize, isize)> = versions().iter().map(|v| v.get_major_minor()).collect();
    assert_eq!(
        numbers,
        vec![
            (2, 0),
            (2, 1),
            (3, 0),
            (3, 1),
            (3, 2),
            (3, 3),
            (4, 0),
            (4, 1),
            (4, 2),
            (4, 3),
            (4, 4),
            (4, 5)
        ]
    );
}

#[test]
fn from_major_minor_inverts_get_major_minor() {
    for version in versions() {
        let (major, minor) = version.get_major_minor();
        assert_eq!(OpenGL::from_major_minor(major, minor), Some(version));
    }
    assert_eq!(OpenGL::from_major_minor(2, 2), None);
    assert_eq!(OpenGL::from_major_minor(3, 4), None);
    assert_eq!(OpenGL::from_major_minor(4, 6), None);
    assert_eq!(OpenGL::from_major_minor(1, 0), None);
    assert_eq!(OpenGL::from_major_minor(5, 0), None);
    assert_eq!(OpenGL::from_major_minor(3, -1), None);
}

#[test]
fn opengl_2_0_gets_no_shader() {
    assert_eq!(pick_shader(OpenGL::V2_0, b"old", b"new"), None);
}

#[test]
fn versions_before_3_2_get_the_120_dialect() {
    for version in [OpenGL::V2_1, OpenGL::V3_0, OpenGL::V3_1] {
        assert_eq!(pick_shader(version, b"old", b"new"), Some(b"old".to_vec()));
    }
}

#[test]
fn versions_from_3_2_get_the_150_dialect() {
    for version in &versions()[4..] {
        assert_eq!(pick_shader(*version, b"old", b"new"), Some(b"new".to_vec()));
    }
}

#[test]
fn a_program_takes_both_shaders_from_one_dialect() {
    let program = pick_program(OpenGL::V3_3, b"v120", b"v150", b"f120", b"f150").unwrap();
    assert_eq!(program.vertex, b"v150".to_vec());
    assert_eq!(program.fragment, b"f150".to_vec());
    let program = pick_program(OpenGL::V2_1, b"v120", b"v150", b"f120", b"f150").unwrap();
    assert_eq!(program.vertex, b"v120".to_vec());
    assert_eq!(program.fragment, b"f120".to_vec());
    assert!(pick_program(OpenGL::V2_0, b"v120", b"v150", b"f120", b"f150").is_none());
}
