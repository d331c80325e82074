use insightora_core::lines::count_lines;
use insightora_core::{
    configure, estimate_memory_mb, export_table, table_schema, ConfigContext, CsvParserConfig,
    FileProbe, InsightoraError, IoErrorKind, IoFailure, ParallelCsvParser, ReadPlan,
    SchemaSampling,
};
use polars::prelude::{CsvReader, DataFrame, SerReader};
use std::io::Cursor;

const PEOPLE: &str = "name,age,salary\nAlice,30,50000\nBob,25,45000\nCharlie,35,60000\n";

fn found(size: u64) -> FileProbe {
    FileProbe { exists: true, size: Ok(size) }
}

fn absent() -> FileProbe {
    FileProbe {
        exists: false,
        size: Err(IoFailure {
            kind: IoErrorKind::NotFound,
            message: String::from("No such file or directory (os error 2)"),
        }),
    }
}

fn read_people(plan: &ReadPlan, content: &str) -> DataFrame {
    let mut reader = CsvReader::new(Cursor::new(content.as_bytes().to_vec()))
        .has_header(plan.has_header)
        .with_separator(plan.separator)
        .low_memory(plan.low_memory);
    if let Some(quote) = plan.quote_char {
        reader = reader.with_quote_char(Some(quote));
    }
    reader = match plan.sampling {
        SchemaSampling::EngineDefault => reader,
        SchemaSampling::Rows(rows) => reader.infer_schema(Some(rows)),
        SchemaSampling::AllRows => reader.infer_schema(None),
    };
    if let Some(rows) = plan.chunk_size {
        reader = reader.with_chunk_size(rows);
    }
    reader.finish().unwrap()
}

#[test]
fn test_parse_csv() {
    let ctx = ConfigContext::new();
    let parser = ParallelCsvParser::new(&ctx);
    let result = parser.parse(&ctx, "people.csv", &found(PEOPLE.len() as u64));

    assert!(result.is_ok());
    let df = read_people(&result.unwrap(), PEOPLE);
    assert_eq!(df.height(), 3);
    assert_eq!(df.width(), 3);
}

#[test]
fn test_parse_nonexistent_file() {
    let ctx = ConfigContext::new();
    let parser = ParallelCsvParser::new(&ctx);
    let result = parser.parse(&ctx, "nonexistent.csv", &absent());
    assert!(result.is_err());
}

#[test]
fn test_infer_schema() {
    let ctx = ConfigContext::new();
    let parser = ParallelCsvParser::new(&ctx);
    let result = parser.infer_schema("people.csv", &found(PEOPLE.len() as u64));

    assert!(result.is_ok());
    let schema = table_schema(&read_people(&result.unwrap(), PEOPLE));
    assert_eq!(schema.len(), 3);
}

#[test]
fn test_count_lines() {
    let ctx = ConfigContext::new();
    let parser = ParallelCsvParser::new(&ctx);
    let count = parser.count_lines(PEOPLE.as_bytes());
    assert_eq!(count, 4); // Header + 3 data rows
}

#[test]
fn four_line_file_parses_to_three_rows_and_three_columns() {
    let ctx = ConfigContext::new();
    let parser = ParallelCsvParser::new(&ctx);
    let plan = parser.parse(&ctx, "people.csv", &found(PEOPLE.len() as u64)).unwrap();
    let parsed = export_table(&read_people(&plan, PEOPLE)).unwrap();
    assert_eq!(parsed.num_rows, 3);
    assert_eq!(parsed.num_columns, 3);
    assert_eq!(parsed.columns, vec!["name", "age", "salary"]);
}

#[test]
fn line_count_is_data_rows_plus_header() {
    let ctx = ConfigContext::new();
    let parser = ParallelCsvParser::new(&ctx);
    let plan = parser.parse(&ctx, "people.csv", &found(PEOPLE.len() as u64)).unwrap();
    let table = read_people(&plan, PEOPLE);
    assert_eq!(parser.count_lines(PEOPLE.as_bytes()), table.height() + 1);

    let headless = ParallelCsvParser::with_config(CsvParserConfig {
        has_header: false,
        ..CsvParserConfig::default()
    });
    let plan = headless.parse(&ctx, "people.csv", &found(PEOPLE.len() as u64)).unwrap();
    let table = read_people(&plan, PEOPLE);
    assert_eq!(headless.count_lines(PEOPLE.as_bytes()), table.height());
}

#[test]
fn count_lines_edge_cases() {
    assert_eq!(count_lines(b""), 0);
    assert_eq!(count_lines(b"a"), 1);
    assert_eq!(count_lines(b"a\n"), 1);
    assert_eq!(count_lines(b"\n"), 1);
    assert_eq!(count_lines(b"\n\n"), 2);
    assert_eq!(count_lines(b"a\nb"), 2);
    assert_eq!(count_lines(b"a\nb\n"), 2);
    assert_eq!(count_lines(b"a\r\nb\r\n"), 2);
    assert_eq!(count_lines(b"head\n\n\ntail"), 4);
}

#[test]
fn count_lines_agrees_with_std_lines() {
    let samples: [&str; 6] = ["", "x", "x\n", "x\ny", "\n\nx\n\n", "a,b\n1,2\n3,4"];
    for sample in samples {
        assert_eq!(count_lines(sample.as_bytes()), sample.lines().count());
    }
}

#[test]
fn default_parser_options() {
    let options = CsvParserConfig::default();
    assert_eq!(options.chunk_size, 100_000);
    assert!(options.has_header);
    assert_eq!(options.delimiter, b',');
    assert_eq!(options.quote_char, b'"');
    assert_eq!(options.infer_schema_length, Some(1000));
}

#[test]
fn new_parser_takes_chunk_size_from_the_context() {
    let mut ctx = ConfigContext::new();
    configure(&mut ctx, None, Some(250), None, None, None).unwrap();
    let parser = ParallelCsvParser::new(&ctx);
    let plan = parser.parse(&ctx, "people.csv", &found(10)).unwrap();
    assert_eq!(
        plan,
        ReadPlan {
            has_header: true,
            separator: b',',
            quote_char: Some(b'"'),
            sampling: SchemaSampling::Rows(1000),
            chunk_size: Some(250),
            low_memory: false,
        }
    );
}

#[test]
fn parse_plan_follows_the_options() {
    let ctx = ConfigContext::new();
    let parser = ParallelCsvParser::with_config(CsvParserConfig {
        chunk_size: 7,
        has_header: false,
        delimiter: b';',
        quote_char: b'\'',
        infer_schema_length: None,
    });
    let plan = parser.parse(&ctx, "data.csv", &found(10)).unwrap();
    assert_eq!(
        plan,
        ReadPlan {
            has_header: false,
            separator: b';',
            quote_char: Some(b'\''),
            sampling: SchemaSampling::AllRows,
            chunk_size: Some(7),
            low_memory: false,
        }
    );
}

#[test]
fn parse_with_inference_overrides_the_sample() {
    let ctx = ConfigContext::new();
    let parser = ParallelCsvParser::new(&ctx);
    let plan = parser.parse_with_inference(&ctx, "data.csv", &found(10), 5).unwrap();
    assert_eq!(plan.sampling, SchemaSampling::Rows(5));
    assert_eq!(plan.chunk_size, Some(100_000));
    assert_eq!(plan.quote_char, Some(b'"'));
    assert!(!plan.low_memory);
}

#[test]
fn schema_read_sets_neither_quote_nor_chunk_size() {
    let ctx = ConfigContext::new();
    let parser = ParallelCsvParser::new(&ctx);
    let plan = parser.infer_schema("data.csv", &found(10)).unwrap();
    assert_eq!(
        plan,
        ReadPlan {
            has_header: true,
            separator: b',',
            quote_char: None,
            sampling: SchemaSampling::Rows(1000),
            chunk_size: None,
            low_memory: false,
        }
    );
}

#[test]
fn missing_file_is_reported_with_its_path() {
    let ctx = ConfigContext::new();
    let parser = ParallelCsvParser::new(&ctx);
    match parser.parse(&ctx, "nonexistent.csv", &absent()) {
        Err(InsightoraError::IoError(failure)) => {
            assert_eq!(failure.kind, IoErrorKind::NotFound);
            assert_eq!(failure.message, "File not found: nonexistent.csv");
        }
        other => panic!("unexpected outcome: {:?}", other),
    }
    assert!(matches!(
        parser.parse_with_inference(&ctx, "nonexistent.csv", &absent(), 10),
        Err(InsightoraError::IoError(_))
    ));
    assert!(matches!(
        parser.infer_schema("nonexistent.csv", &absent()),
        Err(InsightoraError::IoError(_))
    ));
}

#[test]
fn failed_size_request_is_passed_on() {
    let ctx = ConfigContext::new();
    let parser = ParallelCsvParser::new(&ctx);
    let probe = FileProbe {
        exists: true,
        size: Err(IoFailure { kind: IoErrorKind::Other, message: String::from("denied") }),
    };
    match parser.parse(&ctx, "locked.csv", &probe) {
        Err(InsightoraError::IoError(failure)) => {
            assert_eq!(failure.kind, IoErrorKind::Other);
            assert_eq!(failure.message, "denied");
        }
        other => panic!("unexpected outcome: {:?}", other),
    }
    // The schema read never asks for the size.
    assert!(parser.infer_schema("locked.csv", &probe).is_ok());
}

#[test]
fn parse_refuses_an_estimate_over_the_ceiling() {
    let mut ctx = ConfigContext::new();
    configure(&mut ctx, None, None, Some(10), None, None).unwrap();
    let parser = ParallelCsvParser::new(&ctx);
    // 5.5 MB are estimated at 11 MB.
    let size = 5 * 1_048_576 + 524_288;
    match parser.parse(&ctx, "big.csv", &found(size)) {
        Err(InsightoraError::MemoryLimitExceeded { requested, limit }) => {
            assert_eq!(requested, 11);
            assert_eq!(limit, 10);
        }
        other => panic!("unexpected outcome: {:?}", other),
    }
    // One byte less is estimated at 10 MB, which is the ceiling itself.
    assert!(parser.parse(&ctx, "big.csv", &found(size - 1)).is_ok());
    assert!(matches!(
        parser.parse_with_inference(&ctx, "big.csv", &found(size), 3),
        Err(InsightoraError::MemoryLimitExceeded { requested: 11, limit: 10 })
    ));
    // The schema read has no memory check.
    assert!(parser.infer_schema("big.csv", &found(size)).is_ok());
}

#[test]
fn estimate_is_twice_the_size_in_whole_megabytes() {
    assert_eq!(estimate_memory_mb(0), 0);
    assert_eq!(estimate_memory_mb(524_287), 0);
    assert_eq!(estimate_memory_mb(524_288), 1);
    assert_eq!(estimate_memory_mb(1_048_576), 2);
    assert_eq!(estimate_memory_mb(1_048_576 + 524_287), 2);
    assert_eq!(estimate_memory_mb(3_000_000_000), 5722);
    assert_eq!(estimate_memory_mb(u64::MAX), 35_184_372_088_831);
}
