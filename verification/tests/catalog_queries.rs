use tenantm::catalog::{parse_all, select_most_recent, CatalogError, MyTenantManager};
use tenantm::enumerate::{list_subdirectories, Child, ErrorKind, Scan};
use tenantm::timestamp::Timestamp;

fn dir(name: &str) -> Child {
    Child::Found { name: Some(name.to_string()), is_dir: true }
}

fn file(name: &str) -> Child {
    Child::Found { name: Some(name.to_string()), is_dir: false }
}

fn sorted(mut names: Vec<String>) -> Vec<String> {
    names.sort();
    names
}

#[test]
fn list_tenants_returns_directories_and_skips_files() {
    let root = Scan::Listed(vec![dir("acme"), file("README.md"), dir("globex"), file("acme.txt")]);
    let tenants = MyTenantManager.list_tenants(&root).unwrap();
    assert_eq!(sorted(tenants), vec!["acme".to_string(), "globex".to_string()]);
}

#[test]
fn list_tenants_keeps_observed_order() {
    let root = Scan::Listed(vec![dir("zeta"), dir("alpha"), dir("mid")]);
    let tenants = MyTenantManager.list_tenants(&root).unwrap();
    assert_eq!(tenants, vec!["zeta".to_string(), "alpha".to_string(), "mid".to_string()]);
}

#[test]
fn list_tenants_of_missing_root_is_not_found() {
    let outcome = MyTenantManager.list_tenants(&Scan::Absent);
    assert_eq!(outcome, Err(CatalogError::RootNotFound));
    assert_eq!(outcome.unwrap_err().kind(), ErrorKind::NotFound);
}

#[test]
fn list_tenants_of_unreadable_root_is_io() {
    let outcome = MyTenantManager.list_tenants(&Scan::Failed);
    assert_eq!(outcome, Err(CatalogError::Io));
    assert_eq!(outcome.unwrap_err().kind(), ErrorKind::Io);
}

#[test]
fn list_tenants_of_empty_root_is_empty() {
    let tenants = MyTenantManager.list_tenants(&Scan::Listed(vec![])).unwrap();
    assert!(tenants.is_empty());
}

#[test]
fn children_that_cannot_be_listed_are_skipped() {
    let scan = Scan::Listed(vec![
        Child::Unreadable,
        Child::Found { name: None, is_dir: true },
        Child::Found { name: None, is_dir: false },
        dir("kept"),
    ]);
    assert_eq!(list_subdirectories(&scan), Ok(vec!["kept".to_string()]));
    assert!(!Child::Unreadable.is_listed());
    assert!(!file("a").is_listed());
    assert!(dir("a").is_listed());
}

#[test]
fn list_subdirectories_reports_why_there_is_no_listing() {
    assert_eq!(list_subdirectories(&Scan::Absent), Err(ErrorKind::NotFound));
    assert_eq!(list_subdirectories(&Scan::Failed), Err(ErrorKind::Io));
}

#[test]
fn list_datetime_folders_is_unfiltered() {
    let tenant = Scan::Listed(vec![dir("2024-01-01_00-00-00"), dir("not-a-date"), file("notes")]);
    let folders = MyTenantManager.list_datetime_folders(&tenant).unwrap();
    assert_eq!(folders, vec!["2024-01-01_00-00-00".to_string(), "not-a-date".to_string()]);
}

#[test]
fn list_datetime_folders_with_only_files_is_empty() {
    let tenant = Scan::Listed(vec![file("a.log"), file("b.log")]);
    assert_eq!(MyTenantManager.list_datetime_folders(&tenant), Ok(vec![]));
}

#[test]
fn list_datetime_folders_of_missing_tenant_is_not_found() {
    assert_eq!(
        MyTenantManager.list_datetime_folders(&Scan::Absent),
        Err(CatalogError::TenantNotFound)
    );
    assert_eq!(MyTenantManager.list_datetime_folders(&Scan::Failed), Err(CatalogError::Io));
}

#[test]
fn most_recent_of_two_run_folders() {
    let tenant = Scan::Listed(vec![dir("2024-01-01_00-00-00"), dir("2024-06-15_12-30-00")]);
    assert_eq!(
        MyTenantManager.get_most_recent_datetime_folder(&tenant),
        Ok("2024-06-15_12-30-00".to_string())
    );
    let reversed = Scan::Listed(vec![dir("2024-06-15_12-30-00"), dir("2024-01-01_00-00-00")]);
    assert_eq!(
        MyTenantManager.get_most_recent_datetime_folder(&reversed),
        Ok("2024-06-15_12-30-00".to_string())
    );
}

#[test]
fn most_recent_ignores_names_that_are_no_timestamps() {
    let tenant = Scan::Listed(vec![
        dir("not-a-date"),
        dir("2023-03-04_05-06-07"),
        dir("zzzz"),
        file("2099-01-01_00-00-00"),
    ]);
    assert_eq!(
        MyTenantManager.get_most_recent_datetime_folder(&tenant),
        Ok("2023-03-04_05-06-07".to_string())
    );
    let listed = MyTenantManager.list_datetime_folders(&tenant).unwrap();
    assert!(listed.contains(&"not-a-date".to_string()));
}

#[test]
fn most_recent_without_candidates_is_not_found() {
    let tenant = Scan::Listed(vec![dir("not-a-date"), file("2024-01-01_00-00-00")]);
    let outcome = MyTenantManager.get_most_recent_datetime_folder(&tenant);
    assert_eq!(outcome, Err(CatalogError::NoRunFolder));
    assert_eq!(outcome.unwrap_err().kind(), ErrorKind::NotFound);
    assert_eq!(
        MyTenantManager.get_most_recent_datetime_folder(&Scan::Listed(vec![])),
        Err(CatalogError::NoRunFolder)
    );
}

#[test]
fn most_recent_of_missing_tenant_is_not_found() {
    assert_eq!(
        MyTenantManager.get_most_recent_datetime_folder(&Scan::Absent),
        Err(CatalogError::TenantNotFound)
    );
    assert_eq!(
        MyTenantManager.get_most_recent_datetime_folder(&Scan::Failed),
        Err(CatalogError::Io)
    );
}

#[test]
fn most_recent_returns_the_raw_name_with_its_prefix() {
    let tenant = Scan::Listed(vec![
        dir("2024-01-01_00-00-00"),
        dir("generated_2024-02-01_00-00-00"),
        dir("2023-12-31_23-59-59"),
    ]);
    assert_eq!(
        MyTenantManager.get_most_recent_datetime_folder(&tenant),
        Ok("generated_2024-02-01_00-00-00".to_string())
    );
}

#[test]
fn most_recent_of_equal_timestamps_is_the_first() {
    let tenant = Scan::Listed(vec![
        dir("generated_2024-02-01_00-00-00"),
        dir("2024-02-01_00-00-00"),
    ]);
    assert_eq!(
        MyTenantManager.get_most_recent_datetime_folder(&tenant),
        Ok("generated_2024-02-01_00-00-00".to_string())
    );
}

#[test]
fn select_most_recent_picks_first_of_the_greatest() {
    let a = Timestamp::new(2024, 1, 1, 0, 0, 0);
    let b = Timestamp::new(2024, 6, 15, 12, 30, 0);
    assert_eq!(select_most_recent(&vec![]), None);
    assert_eq!(select_most_recent(&vec![None, None]), None);
    assert_eq!(select_most_recent(&vec![None, Some(a)]), Some(1));
    assert_eq!(select_most_recent(&vec![Some(a), None, Some(b), Some(a)]), Some(2));
    assert_eq!(select_most_recent(&vec![Some(b), Some(a), Some(b)]), Some(0));
}

#[test]
fn parse_all_reads_name_by_name() {
    let names = vec!["2024-01-01_00-00-00".to_string(), "nope".to_string()];
    assert_eq!(parse_all(&names), vec![Some(Timestamp::new(2024, 1, 1, 0, 0, 0)), None]);
}

#[test]
fn error_messages() {
    assert_eq!(CatalogError::RootNotFound.message(), "Target folder does not exist");
    assert_eq!(CatalogError::TenantNotFound.message(), "Tenant folder does not exist");
    assert_eq!(CatalogError::NoRunFolder.message(), "No valid datetime folders found");
    assert_eq!(CatalogError::Io.message(), "Failed to read directory");
    assert_eq!(CatalogError::NoRunFolder.kind(), ErrorKind::NotFound);
}

#[test]
fn default_manager_answers_like_any_other() {
    let manager = MyTenantManager::default();
    assert_eq!(manager.list_tenants(&Scan::Listed(vec![dir("t")])), Ok(vec!["t".to_string()]));
}
