use async_std::task::block_on;
use sqlx::migrate::MigrateDatabase;
use sqlx::{Sqlite, SqlitePool};
use store_bootstrap::flow::{begin, database_creation, Phase};
use store_bootstrap::protocol::{Action, Event, Failure};
use store_bootstrap::report::WriteResult;
use store_bootstrap::statement::Statement;

/// One run of the flow against a real store, advanced one action at a time.
struct Runner {
    location: String,
    pool: Option<SqlitePool>,
    phase: Phase,
    action: Action,
    lines: Vec<String>,
    driver_lines: Vec<String>,
}

impl Runner {
    fn new(location: &str) -> Runner {
        let (phase, action) = begin();
        Runner {
            location: String::from(location),
            pool: None,
            phase,
            action,
            lines: Vec::new(),
            driver_lines: Vec::new(),
        }
    }

    fn ended(&self) -> bool {
        matches!(self.action, Action::Finish | Action::Abort(_))
    }

    async fn execute(&mut self, statement: Statement) -> Event {
        let pool = match &self.pool {
            Some(pool) => pool,
            None => return Event::Executed(Err(String::from("no open connection"))),
        };
        let mut query = sqlx::query(statement.sql());
        for value in statement.parameters() {
            query = query.bind(value);
        }
        match query.execute(pool).await {
            Ok(result) => {
                self.driver_lines.push(format!("{:?}", result));
                Event::Executed(Ok(WriteResult {
                    rows_affected: result.rows_affected(),
                    last_insert_rowid: result.last_insert_rowid(),
                }))
            }
            Err(error) => Event::Executed(Err(error.to_string())),
        }
    }

    /// Performs the pending action and hands its outcome to the flow.
    async fn step(&mut self) {
        let pending = std::mem::replace(&mut self.action, Action::Finish);
        let event = match pending {
            Action::ProbeStore => Event::Probed(
                Sqlite::database_exists(&self.location).await.map_err(|e| e.to_string()),
            ),
            Action::CreateStore => Event::Created(
                Sqlite::create_database(&self.location).await.map_err(|e| e.to_string()),
            ),
            Action::Connect => match SqlitePool::connect(&self.location).await {
                Ok(opened) => {
                    self.pool = Some(opened);
                    Event::Connected(Ok(()))
                }
                Err(error) => Event::Connected(Err(error.to_string())),
            },
            Action::Execute(statement) => self.execute(statement).await,
            Action::Close => {
                if let Some(open) = self.pool.take() {
                    open.close().await;
                }
                Event::Closed
            }
            Action::Report(line) => {
                self.lines.push(line.text());
                Event::Reported
            }
            ended => {
                self.action = ended;
                return;
            }
        };
        let phase = std::mem::replace(&mut self.phase, Phase::Failed);
        let (phase, action) = database_creation(phase, event);
        self.phase = phase;
        self.action = action;
    }

    /// Performs actions until `wanted` is the pending one, or the run ended.
    async fn run_until(&mut self, wanted: &Action) {
        while !self.ended() && self.action != *wanted {
            self.step().await;
        }
    }

    async fn run_to_end(&mut self) {
        while !self.ended() {
            self.step().await;
        }
        if let Some(open) = self.pool.take() {
            open.close().await;
        }
    }
}

async fn drive(location: &str) -> Runner {
    let mut runner = Runner::new(location);
    runner.run_to_end().await;
    runner
}

async fn forget(location: &str) {
    let _ = Sqlite::drop_database(location).await;
}

async fn tables(pool: &SqlitePool) -> Vec<String> {
    sqlx::query_scalar::<_, String>(
        "SELECT name FROM sqlite_master WHERE type = 'table' ORDER BY name",
    )
    .fetch_all(pool)
    .await
    .unwrap()
}

async fn count(pool: &SqlitePool, sql: &str) -> i64 {
    sqlx::query_scalar::<_, i64>(sql).fetch_one(pool).await.unwrap()
}

#[test]
fn fresh_location_ends_with_both_tables_and_one_row() {
    let location = "sqlite:///tmp/store_bootstrap_fresh_teststore";
    block_on(async {
        forget(location).await;
        let run = drive(location).await;
        assert_eq!(run.phase, Phase::Finished);
        assert_eq!(run.action, Action::Finish);
        assert_eq!(
            run.lines,
            vec![
                String::from("Database created successfully"),
                String::from("SqliteQueryResult { changes: 1, last_insert_rowid: 1 }"),
            ]
        );

        let pool = SqlitePool::connect(location).await.unwrap();
        assert_eq!(tables(&pool).await, vec![String::from("project"), String::from("settings")]);
        assert_eq!(count(&pool, "SELECT COUNT(*) FROM settings").await, 1);
        assert_eq!(count(&pool, "SELECT COUNT(*) FROM project").await, 0);
        assert_eq!(
            count(&pool, "SELECT COUNT(*) FROM settings WHERE description = 'testing'").await,
            1
        );
        assert_eq!(count(&pool, "SELECT COUNT(*) FROM settings WHERE done <> 0").await, 0);
        assert_eq!(
            count(
                &pool,
                "SELECT COUNT(*) FROM settings WHERE created_on IS NULL OR updated_on IS NULL"
            )
            .await,
            0
        );
        pool.close().await;
        forget(location).await;
    });
}

#[test]
fn each_further_run_adds_one_row_and_no_table() {
    let location = "sqlite:///tmp/store_bootstrap_repeated_teststore";
    block_on(async {
        forget(location).await;
        let first = drive(location).await;
        let second = drive(location).await;
        let third = drive(location).await;
        assert_eq!(first.phase, Phase::Finished);
        assert_eq!(second.phase, Phase::Finished);
        assert_eq!(third.phase, Phase::Finished);
        assert_eq!(first.lines[0], "Database created successfully");
        assert_eq!(
            second.lines,
            vec![
                String::from("Database already exists"),
                String::from("SqliteQueryResult { changes: 1, last_insert_rowid: 2 }"),
            ]
        );
        assert_eq!(
            third.lines,
            vec![
                String::from("Database already exists"),
                String::from("SqliteQueryResult { changes: 1, last_insert_rowid: 3 }"),
            ]
        );

        let pool = SqlitePool::connect(location).await.unwrap();
        assert_eq!(tables(&pool).await, vec![String::from("project"), String::from("settings")]);
        assert_eq!(count(&pool, "SELECT COUNT(*) FROM settings").await, 3);
        assert_eq!(count(&pool, "SELECT COUNT(DISTINCT settings_id) FROM settings").await, 3);
        assert_eq!(count(&pool, "SELECT MAX(settings_id) FROM settings").await, 3);
        assert_eq!(
            count(&pool, "SELECT COUNT(*) FROM settings WHERE description = 'testing'").await,
            3
        );
        assert_eq!(count(&pool, "SELECT COUNT(*) FROM settings WHERE done <> 0").await, 0);
        pool.close().await;
        forget(location).await;
    });
}

#[test]
fn printed_result_reads_as_the_client_library_prints_it() {
    let location = "sqlite:///tmp/store_bootstrap_rendering_teststore";
    block_on(async {
        forget(location).await;
        let first = drive(location).await;
        let second = drive(location).await;
        assert_eq!(first.driver_lines.len(), 2);
        assert_eq!(first.lines[1], first.driver_lines[1]);
        assert_eq!(second.driver_lines.len(), 1);
        assert_eq!(second.lines[1], second.driver_lines[0]);
        forget(location).await;
    });
}

#[test]
fn store_without_schema_is_found_and_the_insert_is_fatal() {
    let location = "sqlite:///tmp/store_bootstrap_bare_teststore";
    block_on(async {
        forget(location).await;
        Sqlite::create_database(location).await.unwrap();
        let run = drive(location).await;
        assert_eq!(run.phase, Phase::Failed);
        assert_eq!(run.lines, vec![String::from("Database already exists")]);
        match run.action {
            Action::Abort(Failure::Insert(detail)) => assert!(detail.contains("settings")),
            other => panic!("the flow ended with {:?}", other),
        }
        forget(location).await;
    });
}

#[test]
fn location_that_cannot_hold_a_store_aborts_at_creation() {
    let location = "sqlite:///tmp/store_bootstrap_missing_directory/teststore";
    block_on(async {
        let run = drive(location).await;
        assert_eq!(run.phase, Phase::Failed);
        assert!(run.lines.is_empty());
        assert!(matches!(run.action, Action::Abort(Failure::CreateStore(_))));
    });
}

#[test]
fn second_run_can_meet_a_store_that_the_first_has_not_schematized() {
    let location = "sqlite:///tmp/store_bootstrap_raced_teststore";
    block_on(async {
        forget(location).await;
        let mut first = Runner::new(location);
        let mut second = Runner::new(location);

        // The first run creates the store and stops short of the schema.
        first.run_until(&Action::Execute(Statement::Schema)).await;
        assert_eq!(first.action, Action::Execute(Statement::Schema));

        // The second run finds the store and tries to seed it.
        second.run_to_end().await;
        assert_eq!(second.phase, Phase::Failed);
        assert_eq!(second.lines, vec![String::from("Database already exists")]);
        assert!(matches!(second.action, Action::Abort(Failure::Insert(_))));

        // The first run goes on undisturbed.
        first.run_to_end().await;
        assert_eq!(first.phase, Phase::Finished);
        assert_eq!(
            first.lines,
            vec![
                String::from("Database created successfully"),
                String::from("SqliteQueryResult { changes: 1, last_insert_rowid: 1 }"),
            ]
        );
        forget(location).await;
    });
}

#[test]
fn two_runs_that_both_find_the_location_empty_can_both_succeed() {
    let location = "sqlite:///tmp/store_bootstrap_shared_teststore";
    block_on(async {
        forget(location).await;
        let mut first = Runner::new(location);
        let mut second = Runner::new(location);

        // Both probe before either creates.
        first.run_until(&Action::CreateStore).await;
        second.run_until(&Action::CreateStore).await;
        assert_eq!(first.action, Action::CreateStore);
        assert_eq!(second.action, Action::CreateStore);

        first.run_to_end().await;
        second.run_to_end().await;
        assert_eq!(first.phase, Phase::Finished);
        assert_eq!(second.phase, Phase::Finished);
        assert_eq!(first.lines[0], "Database created successfully");
        assert_eq!(second.lines[0], "Database created successfully");

        let pool = SqlitePool::connect(location).await.unwrap();
        assert_eq!(tables(&pool).await, vec![String::from("project"), String::from("settings")]);
        assert_eq!(count(&pool, "SELECT COUNT(*) FROM settings").await, 2);
        pool.close().await;
        forget(location).await;
    });
}
