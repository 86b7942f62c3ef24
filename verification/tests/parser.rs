use scop::obj::Obj;
use scop::parser::{store_obj_data, store_vertex};
use scop::text::{chars_of, parse_u32, split_on, split_words};
use std::collections::BTreeMap;

type Point = (f32, f32, f32);

fn chars(s: &str) -> Vec<char> {
    s.chars().collect()
}

fn coordinate(word: &[char]) -> Option<f32> {
    word.iter().collect::<String>().parse::<f32>().ok()
}

fn read_point(x: &Vec<char>, y: &Vec<char>, z: &Vec<char>) -> Option<Point> {
    Some((coordinate(x)?, coordinate(y)?, coordinate(z)?))
}

fn load(lines: &[&str]) -> Obj<Point> {
    let mut obj: Obj<Point> = Obj::empty();
    for line in lines {
        store_obj_data(line.to_string(), &mut obj, read_point);
    }
    obj
}

fn faces(lines: &[&str]) -> Vec<u32> {
    load(lines).polygon_indexes().clone()
}

#[test]
fn words_are_split_on_any_whitespace() {
    let ws = split_words(&chars("  f\t1 2\u{A0}3 \n"));
    assert_eq!(ws, vec![chars("f"), chars("1"), chars("2"), chars("3")]);
    assert!(split_words(&chars("   ")).is_empty());
    assert!(split_words(&chars("")).is_empty());
    assert_eq!(chars_of("añb"), vec!['a', 'ñ', 'b']);
}

#[test]
fn split_keeps_empty_pieces() {
    assert_eq!(split_on(&chars("1//3"), '/'), vec![chars("1"), chars(""), chars("3")]);
    assert_eq!(split_on(&chars(""), '/'), vec![chars("")]);
    assert_eq!(split_on(&chars("/"), '/'), vec![chars(""), chars("")]);
}

#[test]
fn numbers_parse_as_str_parse_does() {
    for text in ["0", "7", "+7", "007", "4294967295", "4294967296", "", "+", "-1", "1a", " 1", "99999999999999999999", "١"] {
        assert_eq!(parse_u32(&chars(text)), text.parse::<u32>().ok(), "text {:?}", text);
    }
}

#[test]
fn triangle_face_stores_its_corners() {
    assert_eq!(faces(&["f 1 2 3"]), vec![1, 2, 3]);
    assert_eq!(faces(&["f 1/4/7 2/5/8 3/6/9"]), vec![1, 2, 3]);
    assert_eq!(faces(&["f 1//7 +2 3/x"]), vec![1, 2, 3]);
}

#[test]
fn quad_face_is_two_triangles() {
    assert_eq!(faces(&["f 1 2 3 4"]), vec![1, 2, 3, 1, 3, 4]);
    assert_eq!(faces(&["f 5/1 6/2 7/3 8/4"]), vec![5, 6, 7, 5, 7, 8]);
}

#[test]
fn faces_skip_corners_that_are_not_numbers() {
    assert_eq!(faces(&["f a/5 1 2"]), vec![5, 1, 2]);
    assert_eq!(faces(&["f 1 x 3 4"]), vec![1, 3, 1, 3, 4]);
    assert_eq!(faces(&["f 1 2 3 x"]), vec![1, 2, 3]);
    assert_eq!(faces(&["f x 2 3 4"]), vec![2, 3, 0, 3, 4]);
    assert_eq!(faces(&["f 1 2 x 4"]), vec![1, 2, 1, 0, 4]);
    assert_eq!(faces(&["f -1 4294967296 3"]), vec![3]);
}

#[test]
fn other_lines_store_nothing() {
    assert!(faces(&["f 1 2", "f 1 2 3 4 5", "vt 1 2 3", "# f 1 2 3", "", "F 1 2 3"]).is_empty());
    assert_eq!(faces(&["f 1 2 3", "vn 0 0 1", "f 4 5 6"]), vec![1, 2, 3, 4, 5, 6]);
}

#[test]
fn vertex_lines_store_their_points() {
    let obj = load(&["v 1.0 -2.5 3e2", "v 1 2 3 1.0", "v 1 2", "v a 2 3", "f 1 2 3", "v 4 5 6"]);
    assert_eq!(obj.map_len(), 3);
    assert_eq!(obj.mapa().get(&0), Some(&(1.0, -2.5, 300.0)));
    assert_eq!(obj.mapa().get(&1), Some(&(1.0, 2.0, 3.0)));
    assert_eq!(obj.mapa().get(&2), Some(&(4.0, 5.0, 6.0)));
    assert_eq!(obj.polygon_indexes(), &vec![1, 2, 3]);
}

#[test]
fn vertex_lines_hand_their_first_three_words_to_the_reader() {
    let mut obj: Obj<(Vec<char>, Vec<char>, Vec<char>)> = Obj::empty();
    let words = |x: &Vec<char>, y: &Vec<char>, z: &Vec<char>| Some((x.clone(), y.clone(), z.clone()));
    store_obj_data("v 1.0 -2.5 3e2".to_string(), &mut obj, words);
    store_obj_data("  v\t7 8 9 10 ".to_string(), &mut obj, words);
    store_obj_data("vt 1 2 3".to_string(), &mut obj, words);
    store_obj_data("v 1 2 3 4 5".to_string(), &mut obj, words);
    assert_eq!(obj.map_len(), 2);
    assert_eq!(obj.mapa()[&0], (chars("1.0"), chars("-2.5"), chars("3e2")));
    assert_eq!(obj.mapa()[&1], (chars("7"), chars("8"), chars("9")));
}

#[test]
fn unreadable_points_are_not_stored() {
    let mut obj: Obj<Point> = Obj::empty();
    store_obj_data("v 1 2 3".to_string(), &mut obj, |_: &Vec<char>, _: &Vec<char>, _: &Vec<char>| None);
    assert_eq!(obj.map_len(), 0);
    assert!(obj.polygon_indexes().is_empty());
}

#[test]
fn vertices_are_keyed_in_reading_order() {
    let mut obj: Obj<Point> = Obj::empty();
    store_vertex(&mut obj, Some((1.0, 2.0, 3.0)));
    store_vertex(&mut obj, None);
    store_vertex(&mut obj, Some((4.0, 5.0, 6.0)));
    assert_eq!(obj.map_len(), 2);
    assert_eq!(obj.mapa().get(&0), Some(&(1.0, 2.0, 3.0)));
    assert_eq!(obj.mapa().get(&1), Some(&(4.0, 5.0, 6.0)));
    assert!(obj.polygon_indexes().is_empty());
}

#[test]
fn obj_setters_and_getters() {
    let mut points = BTreeMap::new();
    points.insert(5usize, (0.0f32, 0.0f32, 0.0f32));
    let mut obj = Obj::new(points, vec![9]);
    assert_eq!(obj.map_len(), 1);
    obj.map_insert(5, (1.0, 1.0, 1.0));
    assert_eq!(obj.map_len(), 1);
    assert_eq!(obj.mapa()[&5], (1.0, 1.0, 1.0));
    obj.vec_insert(4);
    assert_eq!(obj.polygon_indexes(), &vec![9, 4]);
    store_vertex(&mut obj, Some((2.0, 2.0, 2.0)));
    assert_eq!(obj.mapa()[&1], (2.0, 2.0, 2.0));
}

#[test]
fn whitespace_matches_char_is_whitespace() {
    for code in 0u32..0x110000 {
        if let Some(c) = char::from_u32(code) {
            assert_eq!(scop::text::char_is_whitespace(c), c.is_whitespace(), "U+{:04X}", code);
        }
    }
}
