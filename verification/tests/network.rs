use drizzle_postgres::aws_data_api::document::{json_text_at, opt_json_text_at};
use drizzle_postgres::aws_data_api::field::{ColumnMeta, DecodeError, Field, FieldKind, row_from_parts};
use drizzle_postgres::aws_data_api::network::{
    CidrParts, InetParts, cidr_at, inet_at, opt_cidr_at, opt_inet_at,
};

fn row(fields: Vec<Field>) -> drizzle_postgres::aws_data_api::field::Row {
    let meta = fields.iter().map(|_| ColumnMeta { name: None }).collect();
    row_from_parts(fields, meta)
}

#[test]
fn inet_columns_read_as_address_and_prefix() {
    let r = row(vec![
        Field::StringValue("192.168.1.5/24".to_string()),
        Field::StringValue("::1".to_string()),
        Field::StringValue("not an address".to_string()),
        Field::IsNull(true),
    ]);
    assert_eq!(
        inet_at(&r, 0),
        Ok(InetParts { is_v6: false, octets: vec![192, 168, 1, 5], prefix_len: 24 })
    );
    let v6 = inet_at(&r, 1).unwrap();
    assert!(v6.is_v6);
    assert_eq!(v6.prefix_len, 128);
    assert_eq!(v6.octets[15], 1);
    assert_eq!(inet_at(&r, 2), Err(DecodeError::Inet));
    assert_eq!(opt_inet_at(&r, 3), Ok(None));
    assert_eq!(opt_inet_at(&r, 2), Err(DecodeError::Inet));
    assert!(matches!(inet_at(&r, 3), Err(DecodeError::UnexpectedNull(FieldKind::Str)) | Err(DecodeError::WrongKind(_))));
    assert!(matches!(inet_at(&r, 9), Err(DecodeError::ColumnOutOfRange { .. })));
}

#[test]
fn cidr_columns_read_as_network_and_prefix() {
    let r = row(vec![
        Field::StringValue("10.0.0.0/8".to_string()),
        Field::StringValue("10.0.0.1/8".to_string()),
        Field::IsNull(true),
    ]);
    assert_eq!(
        cidr_at(&r, 0),
        Ok(CidrParts { is_v6: false, octets: vec![10, 0, 0, 0], prefix_len: 8 })
    );
    assert_eq!(cidr_at(&r, 1), Err(DecodeError::Cidr));
    assert_eq!(opt_cidr_at(&r, 2), Ok(None));
    assert!(opt_cidr_at(&r, 0).unwrap().is_some());
}

#[test]
fn json_columns_read_as_checked_text() {
    let r = row(vec![
        Field::StringValue(r#"{"a":[1,2]}"#.to_string()),
        Field::StringValue("{oops".to_string()),
        Field::IsNull(true),
    ]);
    assert_eq!(json_text_at(&r, 0), Ok(r#"{"a":[1,2]}"#.to_string()));
    assert_eq!(json_text_at(&r, 1), Err(DecodeError::Json));
    assert_eq!(opt_json_text_at(&r, 2), Ok(None));
    assert_eq!(opt_json_text_at(&r, 0), Ok(Some(r#"{"a":[1,2]}"#.to_string())));
}
