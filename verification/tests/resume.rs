use open_sight::record::{header_fields, Record};
use open_sight::resume::{read_existing_csv, same_texts, ResumeIndex, TableFault};

fn row(path: &str, size: &str) -> Vec<String> {
    let mut fields: Vec<String> = Vec::new();
    for i in 0..10 {
        fields.push(format!("v{}", i));
    }
    fields.push(String::from(size));
    fields.push(String::from(path));
    fields
}

#[test]
fn empty_table_gives_the_empty_index() {
    let index = ResumeIndex::from_rows(&Vec::new()).unwrap();
    assert_eq!(index.len(), 0);
    assert!(!index.contains(""));
    let index = read_existing_csv(b"").unwrap();
    assert_eq!(index.len(), 0);
    assert_eq!(ResumeIndex::new().len(), 0);
}

#[test]
fn header_alone_gives_the_empty_index() {
    let index = ResumeIndex::from_rows(&vec![header_fields()]).unwrap();
    assert_eq!(index.len(), 0);
}

#[test]
fn index_holds_the_path_of_every_data_row() {
    let rows = vec![header_fields(), row("/a.dcm", "1"), row("/b.e2e", "22"), row("/a.dcm", "1")];
    let index = ResumeIndex::from_rows(&rows).unwrap();
    assert_eq!(index.len(), 2);
    assert!(index.contains("/a.dcm"));
    assert!(index.contains("/b.e2e"));
    assert!(!index.contains("/A.dcm"));
    assert!(!index.contains("file_path"));
}

#[test]
fn table_without_the_header_is_refused() {
    let rows = vec![row("/a.dcm", "1"), row("/b.dcm", "2")];
    assert_eq!(ResumeIndex::from_rows(&rows).err(), Some(TableFault::BadHeader));
    let mut header = header_fields();
    header.swap(0, 1);
    assert_eq!(
        ResumeIndex::from_rows(&vec![header, row("/a.dcm", "1")]).err(),
        Some(TableFault::BadHeader)
    );
}

#[test]
fn first_row_that_is_no_record_is_reported() {
    let rows = vec![
        header_fields(),
        row("/a.dcm", "1"),
        row("/b.dcm", "x"),
        row("/c.dcm", "3"),
        row("/d.dcm", ""),
    ];
    assert_eq!(ResumeIndex::from_rows(&rows).err(), Some(TableFault::BadRow(2)));
    let rows = vec![header_fields(), header_fields()];
    assert_eq!(ResumeIndex::from_rows(&rows).err(), Some(TableFault::BadRow(1)));
}

#[test]
fn table_is_read_from_bytes() {
    let table = b"patient_id,patient_name,laterality,sex,dob,scan_date,modality,manufacturer,series_description,modified,file_size,file_path\n\
a,b,c,d,e,f,g,h,i,j,10,/x/1.dcm\n\
a,b,c,d,e,f,g,h,\"i,i\",j,20,\"/x/2, two.dcm\"\n";
    let index = read_existing_csv(table).unwrap();
    assert_eq!(index.len(), 2);
    assert!(index.contains("/x/1.dcm"));
    assert!(index.contains("/x/2, two.dcm"));
}

#[test]
fn bytes_that_are_no_table_are_refused() {
    let ragged = b"patient_id,patient_name,laterality,sex,dob,scan_date,modality,manufacturer,series_description,modified,file_size,file_path\na,b\n";
    assert_eq!(read_existing_csv(ragged).err(), Some(TableFault::Undecodable));
    let not_text = [b'a', b',', 0xff, 0xfe, b'\n'];
    assert_eq!(read_existing_csv(&not_text).err(), Some(TableFault::Undecodable));
    assert_eq!(read_existing_csv(b"a,b,c\n1,2,3\n").err(), Some(TableFault::BadHeader));
    let bad_size = b"patient_id,patient_name,laterality,sex,dob,scan_date,modality,manufacturer,series_description,modified,file_size,file_path\na,b,c,d,e,f,g,h,i,j,ten,/x/1.dcm\n";
    assert_eq!(read_existing_csv(bad_size).err(), Some(TableFault::BadRow(1)));
}

#[test]
fn index_of_given_paths() {
    let index = ResumeIndex::from_paths(&vec![
        String::from("/a"),
        String::from("/b"),
        String::from("/a"),
    ]);
    assert_eq!(index.len(), 2);
    assert!(index.contains("/a"));
    assert!(index.contains("/b"));
    assert!(!index.contains("/c"));
}

#[test]
fn texts_are_compared_field_by_field() {
    let a = vec![String::from("x"), String::from("y")];
    assert!(same_texts(&a, &a.clone()));
    assert!(!same_texts(&a, &vec![String::from("x")]));
    assert!(!same_texts(&a, &vec![String::from("x"), String::from("z")]));
    assert!(same_texts(&Vec::new(), &Vec::new()));
}

#[test]
fn row_read_back_is_the_record_written() {
    let fields = row("/a.dcm", "5");
    let r = Record::from_fields(&fields).unwrap();
    assert_eq!(r.file_size, 5);
    assert_eq!(r.file_path, "/a.dcm");
    assert_eq!(r.to_fields(), fields);
}
