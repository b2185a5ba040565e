use kithe_plot::model::data::{
    table_from_answers,
    parse_delimited, parse_numeric_row, table_from_rows, ColumnData, DataSource, DataTable, Delimiter,
};

fn number(s: &str) -> Option<u64> {
    s.parse::<f64>().ok().map(|v| v.to_bits())
}

fn bits(v: &[f64]) -> Vec<u64> {
    v.iter().map(|x| x.to_bits()).collect()
}

fn parse(text: &str, d: Delimiter) -> Result<DataTable, String> {
    parse_delimited(text, d, &number)
}

#[test]
fn csv_with_header() {
    let t = parse("x,y\n1,2\n3, 4.5\n", Delimiter::Comma).unwrap();
    assert_eq!(t.column_names(), vec!["x", "y"]);
    assert_eq!(t.row_count, 2);
    assert_eq!(t.columns[0].values, bits(&[1.0, 3.0]));
    assert_eq!(t.columns[1].values, bits(&[2.0, 4.5]));
}

#[test]
fn whitespace_without_header_gets_generated_names() {
    let t = parse("# data\n1 2 3\n4\t5 6\n", Delimiter::Whitespace).unwrap();
    assert_eq!(t.column_names(), vec!["col_1", "col_2", "col_3"]);
    assert_eq!(t.row_count, 2);
    assert_eq!(t.columns[2].values, bits(&[3.0, 6.0]));
}

#[test]
fn parse_errors() {
    assert_eq!(parse("", Delimiter::Comma).unwrap_err(), "Input file is empty / Fail pust");
    assert_eq!(parse("# c\n\n   \n", Delimiter::Comma).unwrap_err(), "Input file is empty / Fail pust");
    assert_eq!(
        parse(",,\n1,2\n", Delimiter::Comma).unwrap_err(),
        "First row has no values / V pervoy stroke net znacheniy"
    );
    assert_eq!(parse("a,b\n1,2\n3\n", Delimiter::Comma).unwrap_err(), "Row 3 has 1 values, expected 2");
    assert_eq!(parse("1,2\n3,4,5\n", Delimiter::Comma).unwrap_err(), "Row 2 has 3 values, expected 2");
    assert_eq!(parse("a,b\n1,x\n", Delimiter::Comma).unwrap_err(), "Failed to parse number: x");
    assert_eq!(parse("a,b\n", Delimiter::Comma).unwrap_err(), "No numeric rows found / Net chislovyh strok");
}

#[test]
fn first_error_wins() {
    assert_eq!(parse("a,b\n1,x\n2\n", Delimiter::Comma).unwrap_err(), "Failed to parse number: x");
    assert_eq!(parse("a,b\n2\n1,x\n", Delimiter::Comma).unwrap_err(), "Row 2 has 1 values, expected 2");
}

#[test]
fn numeric_row_reports_first_bad_field() {
    let tokens = vec!["1".to_string(), "zz".to_string(), "yy".to_string()];
    let values = vec![Some(1), None, None];
    assert_eq!(parse_numeric_row(&tokens, &values).unwrap_err(), "Failed to parse number: zz");
    let values = vec![Some(1), Some(2), Some(3)];
    assert_eq!(parse_numeric_row(&tokens, &values).unwrap(), vec![1, 2, 3]);
}

#[test]
fn table_from_given_fields() {
    let rows = vec![
        vec!["t".to_string(), "v".to_string()],
        vec!["1".to_string(), "2".to_string()],
    ];
    let values = vec![vec![None, None], vec![Some(10), Some(20)]];
    let t = table_from_rows(&rows, &values).unwrap();
    assert_eq!(t.column_names(), vec!["t", "v"]);
    assert_eq!(t.columns[0].values, vec![10]);
    assert_eq!(t.columns[1].values, vec![20]);
}

#[test]
fn lookups_and_points() {
    let t = DataTable {
        columns: vec![
            ColumnData { name: "a".to_string(), values: vec![1, 2, 3] },
            ColumnData { name: "b".to_string(), values: vec![4, 5] },
            ColumnData { name: "a".to_string(), values: vec![9] },
        ],
        row_count: 2,
    };
    assert!(t.has_column("b"));
    assert!(!t.has_column("c"));
    assert_eq!(t.column_values("a").unwrap(), &[1, 2, 3]);
    assert!(t.column_values("c").is_none());
    assert_eq!(t.points_for_columns("a", "b").unwrap(), vec![(1, 4), (2, 5)]);
    assert_eq!(t.points_for_columns("c", "b").unwrap_err(), "X column not found: c");
    assert_eq!(t.points_for_columns("a", "d").unwrap_err(), "Y column not found: d");
    assert_eq!(DataSource::column(&t, "b"), Some(vec![4, 5]));
    assert_eq!(DataSource::len(&t), 2);
    let e = DataTable::empty();
    assert!(e.columns.is_empty());
    assert_eq!(e.row_count, 0);
}

struct Host {
    names: Vec<String>,
    cols: Vec<Vec<u64>>,
    len: usize,
}

impl DataSource for Host {
    fn column(&self, name: &str) -> Option<Vec<u64>> {
        self.names.iter().position(|n| n == name).map(|i| self.cols[i].clone())
    }
    fn column_names(&self) -> Vec<String> {
        self.names.clone()
    }
    fn len(&self) -> usize {
        self.len
    }
}

#[test]
fn data_source_columns_are_cut_to_common_length() {
    let h = Host {
        names: vec!["x".to_string(), "y".to_string()],
        cols: vec![vec![1, 2, 3, 4], vec![5, 6, 7]],
        len: 10,
    };
    let t = DataTable::from_data_source(&h).unwrap();
    assert_eq!(t.row_count, 3);
    assert_eq!(t.columns[0].values, vec![1, 2, 3]);
    assert_eq!(t.columns[1].values, vec![5, 6, 7]);
    let h = Host { names: vec!["x".to_string()], cols: vec![vec![1, 2, 3]], len: 2 };
    let t = DataTable::from_data_source(&h).unwrap();
    assert_eq!(t.row_count, 2);
    assert_eq!(t.columns[0].values, vec![1, 2]);
}

struct Missing;

impl DataSource for Missing {
    fn column(&self, _name: &str) -> Option<Vec<u64>> {
        None
    }
    fn column_names(&self) -> Vec<String> {
        vec!["q".to_string()]
    }
    fn len(&self) -> usize {
        1
    }
}

#[test]
fn data_source_failures() {
    let h = Host { names: vec![], cols: vec![], len: 0 };
    assert_eq!(
        DataTable::from_data_source(&h).unwrap_err(),
        "Data source has no columns / Istochnik ne soderzhit stolbcov"
    );
    assert_eq!(DataTable::from_data_source(&Missing).unwrap_err(), "Missing column in source: q");
}

#[test]
fn columns_assembled_with_common_rows() {
    let t = DataTable::from_columns(
        vec!["a".to_string(), "b".to_string()],
        5,
        vec![vec![1, 2], vec![3, 4, 5]],
    );
    assert_eq!(t.row_count, 2);
    assert_eq!(t.columns[1].values, vec![3, 4]);
}

#[test]
fn table_from_answers_cases() {
    let names = |v: &[&str]| v.iter().map(|s| s.to_string()).collect::<Vec<String>>();
    assert_eq!(
        table_from_answers(vec![], 3, vec![]).unwrap_err(),
        "Data source has no columns / Istochnik ne soderzhit stolbcov"
    );
    assert_eq!(
        table_from_answers(names(&["a", "b", "c"]), 3, vec![Some(vec![1]), None]).unwrap_err(),
        "Missing column in source: b"
    );
    let t = table_from_answers(names(&["a", "b"]), 3, vec![Some(vec![1, 2, 3]), Some(vec![4, 5])]).unwrap();
    assert_eq!(t.row_count, 2);
    assert_eq!(t.column_names(), names(&["a", "b"]));
    assert_eq!(t.columns[0].values, vec![1, 2]);
    assert_eq!(t.columns[1].values, vec![4, 5]);
}

#[test]
fn table_round_trips_through_normalization() {
    let t = DataTable {
        columns: vec![
            ColumnData { name: "p".to_string(), values: vec![1, 2, 3] },
            ColumnData { name: "q".to_string(), values: vec![4, 5, 6] },
        ],
        row_count: 3,
    };
    let u = DataTable::from_data_source(&t).unwrap();
    assert_eq!(u.row_count, 3);
    assert_eq!(u.column_names(), t.column_names());
    assert_eq!(u.columns[0].values, t.columns[0].values);
    assert_eq!(u.columns[1].values, t.columns[1].values);
}
