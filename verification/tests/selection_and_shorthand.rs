use lui_core::{cursor_less, distribute_values, expand_shorthand, longhands_of, CssProperty, TextCursor, TextSelection};

fn cur(path: &[usize], i: usize) -> TextCursor {
    TextCursor { path: path.to_vec(), char_index: i }
}

#[test]
fn cursor_order_by_path_then_index() {
    assert!(cursor_less(&cur(&[0, 1], 5), &cur(&[0, 2], 0)));
    assert!(cursor_less(&cur(&[0], 9), &cur(&[0, 0], 0)));
    assert!(!cursor_less(&cur(&[0, 0], 0), &cur(&[0], 9)));
    assert!(cursor_less(&cur(&[1], 2), &cur(&[1], 3)));
    assert!(!cursor_less(&cur(&[1], 3), &cur(&[1], 3)));
    assert!(cursor_less(&cur(&[], 0), &cur(&[], 1)));
}

#[test]
fn selection_ordered_and_collapsed() {
    let sel = TextSelection { anchor: cur(&[2], 4), focus: cur(&[1], 7) };
    let (start, end) = sel.ordered();
    assert_eq!(start, &cur(&[1], 7));
    assert_eq!(end, &cur(&[2], 4));
    assert!(!sel.is_collapsed());
    let same = TextSelection { anchor: cur(&[3, 1], 2), focus: cur(&[3, 1], 2) };
    assert!(same.is_collapsed());
    let (s, e) = same.ordered();
    assert_eq!(s, e);
    let forward = TextSelection { anchor: cur(&[1], 1), focus: cur(&[1], 2) };
    assert_eq!(forward.ordered().0, &forward.anchor);
}

#[test]
fn longhands_of_shorthands() {
    assert_eq!(
        longhands_of(CssProperty::Margin),
        vec![CssProperty::MarginTop, CssProperty::MarginRight, CssProperty::MarginBottom, CssProperty::MarginLeft]
    );
    assert_eq!(longhands_of(CssProperty::Gap), vec![CssProperty::RowGap, CssProperty::ColumnGap]);
    assert!(longhands_of(CssProperty::Color).is_empty());
    assert!(longhands_of(CssProperty::Unknown("margin".to_string())).is_empty());
    assert_eq!(longhands_of(CssProperty::Animation).len(), 9);
    assert_eq!(
        longhands_of(CssProperty::Font),
        vec![
            CssProperty::FontStyle,
            CssProperty::FontVariant,
            CssProperty::FontWeight,
            CssProperty::FontStretch,
            CssProperty::FontSize,
            CssProperty::LineHeight,
            CssProperty::FontFamily,
        ]
    );
    assert_eq!(longhands_of(CssProperty::WhiteSpace), vec![CssProperty::WhiteSpaceCollapse, CssProperty::TextWrapMode]);
    assert_eq!(longhands_of(CssProperty::Transition).last(), Some(&CssProperty::TransitionBehavior));
}

#[test]
fn distribute_box_pattern() {
    let sides = longhands_of(CssProperty::Padding);
    let one = distribute_values(&["a"], &sides);
    assert_eq!(one.iter().map(|x| x.1).collect::<Vec<_>>(), vec!["a", "a", "a", "a"]);
    let two = distribute_values(&["a", "b"], &sides);
    assert_eq!(two.iter().map(|x| x.1).collect::<Vec<_>>(), vec!["a", "b", "a", "b"]);
    let three = distribute_values(&["a", "b", "c"], &sides);
    assert_eq!(three.iter().map(|x| x.1).collect::<Vec<_>>(), vec!["a", "b", "c", "b"]);
    let four = distribute_values(&["a", "b", "c", "d"], &sides);
    assert_eq!(four.iter().map(|x| x.1).collect::<Vec<_>>(), vec!["a", "b", "c", "d"]);
    assert_eq!(four[3].0, CssProperty::PaddingLeft);
}

#[test]
fn distribute_edge_cases() {
    let none: Vec<(CssProperty, &str)> = distribute_values(&[], &longhands_of(CssProperty::Margin));
    assert!(none.is_empty());
    assert!(distribute_values(&["a"], &[]).is_empty());
    // Two longhands: the pattern is cut to their number.
    let gap = distribute_values(&["x", "y"], &longhands_of(CssProperty::Gap));
    assert_eq!(gap, vec![(CssProperty::RowGap, "x"), (CssProperty::ColumnGap, "y")]);
    // Eight longhands and two values: the pattern has four entries.
    assert_eq!(distribute_values(&["x", "y"], &longhands_of(CssProperty::Background)).len(), 4);
    // Five values for four longhands: the extra one is dropped.
    assert_eq!(distribute_values(&[1, 2, 3, 4, 5], &longhands_of(CssProperty::Inset)).len(), 4);
    // One value fills every longhand, however many.
    assert_eq!(distribute_values(&[7], &longhands_of(CssProperty::Animation)).len(), 9);
}

#[test]
fn expand_shorthand_values() {
    let out = expand_shorthand(CssProperty::BorderWidth, &[1, 2]);
    assert_eq!(
        out,
        vec![
            (CssProperty::BorderTopWidth, 1),
            (CssProperty::BorderRightWidth, 2),
            (CssProperty::BorderBottomWidth, 1),
            (CssProperty::BorderLeftWidth, 2)
        ]
    );
    assert!(expand_shorthand(CssProperty::Color, &[1]).is_empty());
}
