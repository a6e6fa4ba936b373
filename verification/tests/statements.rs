use media_prompt::db::mysql::{
    batch_insert_prompts, InsertAction, InsertStatement, InsertTransaction, SqlValue,
};
use media_prompt::error::AppError;
use media_prompt::model::prompt::{MediaPrompt, PromptType};

fn prompts(n: usize) -> Vec<MediaPrompt> {
    (0..n)
        .map(|i| {
            MediaPrompt::success(
                7,
                i as i32,
                Some(2),
                PromptType::SoundEffect,
                format!("p{i}"),
                15,
                Some(4),
                1,
            )
        })
        .collect()
}

fn scene_indexes(s: &InsertStatement) -> Vec<i32> {
    s.values
        .chunks(12)
        .map(|row| match row[1] {
            SqlValue::Int(Some(n)) => n,
            _ => panic!("no scene index"),
        })
        .collect()
}

#[test]
fn one_row() {
    let statements = batch_insert_prompts(&prompts(1));
    assert_eq!(statements.len(), 1);
    assert_eq!(
        statements[0].sql,
        "INSERT INTO tb_media_prompt (task_id, scene_index, storyboard_index, prompt_type, \
         prompt_content, status, error_message, llm_error_code, llm_response_snippet, \
         llm_duration_ms, token_usage, llm_retries) VALUES (?, ?, ?, ?, ?, ?, ?, ?, ?, ?, ?, ?)"
    );
    let v = &statements[0].values;
    assert_eq!(v.len(), 12);
    assert!(matches!(v[0], SqlValue::BigInt(Some(7))));
    assert!(matches!(v[1], SqlValue::Int(Some(0))));
    assert!(matches!(v[2], SqlValue::Int(Some(2))));
    assert!(matches!(&v[3], SqlValue::Text(Some(s)) if s == "sound_effect"));
    assert!(matches!(&v[4], SqlValue::Text(Some(s)) if s == "p0"));
    assert!(matches!(v[5], SqlValue::TinyInt(0)));
    assert!(matches!(v[6], SqlValue::Text(None)));
    assert!(matches!(v[7], SqlValue::Text(None)));
    assert!(matches!(v[8], SqlValue::Text(None)));
    assert!(matches!(v[9], SqlValue::BigInt(Some(15))));
    assert!(matches!(v[10], SqlValue::Int(Some(4))));
    assert!(matches!(v[11], SqlValue::Int(Some(1))));
}

#[test]
fn failed_row() {
    let failed = MediaPrompt::failed(
        7,
        1,
        None,
        PromptType::VideoPrompt,
        "e".to_string(),
        Some("c".to_string()),
        Some("s".to_string()),
        None,
        None,
    );
    let statements = batch_insert_prompts(&[failed]);
    let v = &statements[0].values;
    assert!(matches!(v[2], SqlValue::Int(None)));
    assert!(matches!(v[4], SqlValue::Text(None)));
    assert!(matches!(v[5], SqlValue::TinyInt(1)));
    assert!(matches!(&v[6], SqlValue::Text(Some(s)) if s == "e"));
    assert!(matches!(&v[7], SqlValue::Text(Some(s)) if s == "c"));
    assert!(matches!(&v[8], SqlValue::Text(Some(s)) if s == "s"));
    assert!(matches!(v[9], SqlValue::BigInt(None)));
    assert!(matches!(v[11], SqlValue::Int(None)));
}

#[test]
fn rows_are_cut_into_statements() {
    for (rows, statements) in [(0usize, 0usize), (1, 1), (99, 1), (100, 1), (101, 2), (250, 3)] {
        let all = batch_insert_prompts(&prompts(rows));
        assert_eq!(all.len(), statements);
        let mut seen: Vec<i32> = Vec::new();
        for s in &all {
            let rows_here = s.values.len() / 12;
            assert!(1 <= rows_here && rows_here <= 100);
            assert_eq!(s.sql.matches('?').count(), s.values.len());
            assert_eq!(s.sql.matches("), (").count(), rows_here - 1);
            seen.extend(scene_indexes(s));
        }
        assert_eq!(seen, (0..rows as i32).collect::<Vec<i32>>());
    }
}

#[test]
fn nothing_to_write_ends_at_once() {
    let (_, action) = InsertTransaction::start(&[]);
    assert!(matches!(action, InsertAction::Finish(Ok(()))));
}

#[test]
fn transactions_commit_last() {
    let (mut tx, mut action) = InsertTransaction::start(&prompts(150));
    let mut course: Vec<String> = Vec::new();
    loop {
        course.push(match action {
            InsertAction::Begin => "begin".to_string(),
            InsertAction::Execute(s) => format!("execute {}", s.values.len() / 12),
            InsertAction::Commit => "commit".to_string(),
            InsertAction::Finish(r) => {
                assert!(r.is_ok());
                break;
            }
        });
        let next = tx.step(Ok(()));
        tx = next.0;
        action = next.1;
    }
    assert_eq!(course, vec!["begin", "execute 100", "execute 50", "commit"]);
}

#[test]
fn failures_end_transactions() {
    for failing in 0..4 {
        let (mut tx, mut action) = InsertTransaction::start(&prompts(150));
        let mut step = 0;
        let error = loop {
            if let InsertAction::Finish(r) = action {
                break r.unwrap_err();
            }
            let outcome = if step == failing {
                Err(AppError::MySql(format!("step {step}")))
            } else {
                Ok(())
            };
            let next = tx.step(outcome);
            tx = next.0;
            action = next.1;
            step += 1;
        };
        assert_eq!(step, failing + 1);
        assert_eq!(error.message(), format!("MySQL error: step {failing}"));
    }
}
