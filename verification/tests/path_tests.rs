use rust_spatial::errors::SpatialError;
use rust_spatial::errors::disconnected_path_message;
use rust_spatial::geometries::line::Line;
use rust_spatial::geometries::path::Path;
use rust_spatial::geometries::vertex::Vertex;

fn vertex(lat: f64, lon: f64) -> Vertex {
    Vertex::new(lat.to_bits(), lon.to_bits())
}

#[test]
fn test_path_creation_success() {
    let vertex_a = vertex(10.123456, -20.654321);
    let vertex_b = vertex(11.123456, -21.654321);

    let line_path = Line::new(vertex_a, vertex_b).unwrap();

    let line_check = Line::new(vertex_a, vertex_b).unwrap();

    let path = Path::new(vec![line_path]);

    assert!(path.is_ok());

    let path = path.unwrap();

    assert_eq!(
        path.lines[0].starting_vertex.latitude,
        line_check.starting_vertex.latitude
    );
    assert_eq!(
        path.lines[0].starting_vertex.longitude,
        line_check.starting_vertex.longitude
    );
    assert_eq!(
        path.lines[0].ending_vertex.latitude,
        line_check.ending_vertex.latitude
    );
    assert_eq!(
        path.lines[0].ending_vertex.longitude,
        line_check.ending_vertex.longitude
    );
}

#[test]
fn test_path_creation_error() {
    let vertex_a = vertex(10.123456, -20.654321);
    let vertex_b = vertex(11.123456, -21.654321);
    let vertex_c = vertex(12.123456, -22.654321);

    let line_a = Line::new(vertex_a, vertex_b).unwrap();
    let line_b = Line::new(vertex_c, vertex_a).unwrap();

    let path = Path::new(vec![line_a, line_b]);

    assert!(path.is_err());

    let message = match path.err().unwrap() {
        SpatialError::DisconnectedPath { index } => disconnected_path_message(index),
        _ => panic!("expected a disconnected path error"),
    };
    assert_eq!(
        message,
        "Caminho inconsistente: linha 0 não se conecta com a linha 1"
    )
}

#[test]
fn test_path_creation_error_detailed() {
    let vertex_a = vertex(10.123456, -20.654321);
    let vertex_b = vertex(11.123456, -21.654321);
    let vertex_c = vertex(12.123456, -22.654321);

    let line_a = Line::new(vertex_a, vertex_b).unwrap();
    let line_b = Line::new(vertex_c, vertex_a).unwrap();

    let path = Path::new(vec![line_a, line_b]);

    assert!(path.is_err());

    let err = path.err().unwrap();
    assert!(matches!(err, SpatialError::DisconnectedPath { index: 1 }));
    let err_message = match err {
        SpatialError::DisconnectedPath { index } => disconnected_path_message(index),
        _ => panic!("expected a disconnected path error"),
    };
    assert_eq!(
        err_message,
        "Caminho inconsistente: linha 0 não se conecta com a linha 1"
    );

    assert!(err_message.contains("linha 0"));
    assert!(err_message.contains("linha 1"));
}

#[test]
fn test_empty_path() {
    let path: Result<Path, SpatialError> = Path::new(vec![]);
    assert!(path.is_ok());
    let path = path.unwrap();
    assert_eq!(path.lines.len(), 0);
}

#[test]
fn test_duplicate_lines() {
    let vertex_a = vertex(0.0, 0.0);
    let vertex_b = vertex(3.0, 4.0);

    let line_a = Line::new(vertex_a, vertex_b).unwrap();
    let line_b = Line::new(vertex_a, vertex_b).unwrap();

    let path = Path::new(vec![line_a, line_b]);

    assert!(path.is_err());
}

#[test]
fn test_connected_two_line_path() {
    // The connected pair (0,0)→(3,4) and (3,4)→(6,8) builds; the pair with
    // the second line restarted at (0,0) is rejected at index 1.
    let line_a = Line::new(vertex(0.0, 0.0), vertex(3.0, 4.0)).unwrap();
    let line_b = Line::new(vertex(3.0, 4.0), vertex(6.0, 8.0)).unwrap();
    assert!(Path::new(vec![line_a, line_b]).is_ok());

    let line_c = Line::new(vertex(0.0, 0.0), vertex(3.0, 4.0)).unwrap();
    let line_d = Line::new(vertex(0.0, 0.0), vertex(3.0, 4.0)).unwrap();
    let broken = Path::new(vec![line_c, line_d]);
    assert!(matches!(
        broken.err().unwrap(),
        SpatialError::DisconnectedPath { index: 1 }
    ));
}

#[test]
fn test_closed_path_construction() {
    // A two-line path returning to its own start is a legal polyline.
    let line_a = Line::new(vertex(0.0, 0.0), vertex(3.0, 4.0)).unwrap();
    let line_b = Line::new(vertex(3.0, 4.0), vertex(0.0, 0.0)).unwrap();
    assert!(Path::new(vec![line_a, line_b]).is_ok());
}

#[test]
fn test_path_reports_first_break() {
    // Validation fails fast: with two broken adjacencies the earlier one is
    // reported.
    let line_a = Line::new(vertex(0.0, 0.0), vertex(1.0, 1.0)).unwrap();
    let line_b = Line::new(vertex(2.0, 2.0), vertex(3.0, 3.0)).unwrap();
    let line_c = Line::new(vertex(4.0, 4.0), vertex(5.0, 5.0)).unwrap();
    let path = Path::new(vec![line_a, line_b, line_c]);
    assert!(matches!(
        path.err().unwrap(),
        SpatialError::DisconnectedPath { index: 1 }
    ));
}

#[test]
fn test_disconnected_message_larger_indices() {
    assert_eq!(
        disconnected_path_message(12),
        "Caminho inconsistente: linha 11 não se conecta com a linha 12"
    );
    assert_eq!(
        disconnected_path_message(100),
        "Caminho inconsistente: linha 99 não se conecta com a linha 100"
    );
}
