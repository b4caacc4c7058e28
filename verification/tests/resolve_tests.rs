use notion_shim::class::{classify, ToolClass};
use notion_shim::context::{
    Catalog, Context, Layout, Lookup, PlatformConfig, Project, Toolchain, ToolchainDirs,
};
use notion_shim::error::{ErrorClass, ResolveError};
use notion_shim::location::Location;
use notion_shim::resolve::{
    is_node_version_installed, resolve_3p_shims, resolve_node_shims, resolve_npx_shims,
    resolve_shim, resolve_yarn_shims,
};
use notion_shim::target::DispatchTarget;
use notion_shim::version::{Identifier, Version};

fn location(components: &[&str]) -> Location {
    Location { components: components.iter().map(|c| c.to_string()).collect() }
}

fn layout() -> Layout {
    Layout {
        node: ToolchainDirs {
            versions: location(&["/home/me/.notion", "versions", "node"]),
            bin: location(&["bin"]),
        },
        yarn: ToolchainDirs {
            versions: location(&["/home/me/.notion", "versions", "yarn"]),
            bin: location(&["bin"]),
        },
    }
}

fn catalog() -> Catalog {
    Catalog {
        node: vec![Version::new(8, 11, 3), Version::new(10, 4, 1)],
        yarn: vec![Version::new(1, 7, 0)],
        yarn_default: Some(Version::new(1, 7, 0)),
    }
}

fn project(platform: Option<PlatformConfig>) -> Project {
    Project {
        platform,
        binaries: vec!["eslint".to_string(), "tsc".to_string()],
        local_bin_dir: location(&["/work/app", "node_modules", ".bin"]),
    }
}

fn context(project: Option<Project>) -> Context {
    Context {
        project,
        catalog: Lookup::Known(catalog()),
        user_node: Lookup::Known(Some(Version::new(8, 11, 3))),
        layout: Lookup::Known(layout()),
    }
}

fn pins(node: Version, yarn: Option<Version>) -> Option<PlatformConfig> {
    Some(PlatformConfig { node, yarn })
}

#[test]
fn classify_knows_the_names_with_rules_of_their_own() {
    assert_eq!(classify("node"), ToolClass::Node);
    assert_eq!(classify("npm"), ToolClass::Node);
    assert_eq!(classify("yarn"), ToolClass::Yarn);
    assert_eq!(classify("npx"), ToolClass::Npx);
}

#[test]
fn classify_takes_every_other_name_for_third_party() {
    assert_eq!(classify("eslint"), ToolClass::ThirdParty);
    assert_eq!(classify(""), ToolClass::ThirdParty);
    assert_eq!(classify("nod"), ToolClass::ThirdParty);
    assert_eq!(classify("nodes"), ToolClass::ThirdParty);
    assert_eq!(classify("Node"), ToolClass::ThirdParty);
    assert_eq!(classify("yarnpkg"), ToolClass::ThirdParty);
    assert_eq!(classify("npx "), ToolClass::ThirdParty);
    assert_eq!(classify("nöde"), ToolClass::ThirdParty);
}

#[test]
fn version_text_is_what_semver_prints() {
    assert_eq!(Version::new(10, 4, 1).text(), "10.4.1");
    assert_eq!(Version::new(0, 0, 0).text(), "0.0.0");
    let full = Version {
        major: 1,
        minor: 2,
        patch: 3,
        pre: vec![Identifier::AlphaNumeric("beta".to_string()), Identifier::Numeric(1)],
        build: vec![Identifier::AlphaNumeric("build".to_string()), Identifier::Numeric(5)],
    };
    assert_eq!(full.text(), "1.2.3-beta.1+build.5");
    let nightly = Version {
        major: 11,
        minor: 0,
        patch: 0,
        pre: vec![Identifier::AlphaNumeric("nightly20180801".to_string())],
        build: vec![],
    };
    assert_eq!(nightly.text(), "11.0.0-nightly20180801");
    let built = Version {
        major: 18446744073709551615,
        minor: 0,
        patch: 7,
        pre: vec![],
        build: vec![Identifier::Numeric(20)],
    };
    assert_eq!(built.text(), "18446744073709551615.0.7+20");
}

#[test]
fn same_release_leaves_build_metadata_out() {
    let plain = Version::new(1, 2, 3);
    let mut built = Version::new(1, 2, 3);
    built.build.push(Identifier::Numeric(7));
    let mut pre = Version::new(1, 2, 3);
    pre.pre.push(Identifier::AlphaNumeric("rc".to_string()));
    let mut pre_numeric = Version::new(1, 2, 3);
    pre_numeric.pre.push(Identifier::Numeric(1));
    let mut pre_text = Version::new(1, 2, 3);
    pre_text.pre.push(Identifier::AlphaNumeric("1".to_string()));
    assert!(plain.same_release(&built));
    assert!(built.same_release(&plain));
    assert!(plain.same_release(&plain.clone()));
    assert!(!plain.same_release(&pre));
    assert!(!pre.same_release(&pre_numeric));
    assert!(!pre_numeric.same_release(&pre_text));
    assert!(!plain.same_release(&Version::new(1, 2, 4)));
    assert!(!plain.same_release(&Version::new(1, 3, 3)));
    assert!(!plain.same_release(&Version::new(2, 2, 3)));
    assert_ne!(plain, built);
}

#[test]
fn clone_keeps_every_part_of_a_version() {
    let full = Version {
        major: 1,
        minor: 2,
        patch: 3,
        pre: vec![Identifier::AlphaNumeric("beta".to_string()), Identifier::Numeric(1)],
        build: vec![Identifier::Numeric(5)],
    };
    assert_eq!(full.clone(), full);
}

#[test]
fn layout_places_a_binary_below_its_version() {
    let layout = layout();
    assert_eq!(
        layout.bin_dir(Toolchain::Node, "10.4.1"),
        location(&["/home/me/.notion", "versions", "node", "10.4.1", "bin"])
    );
    assert_eq!(
        layout.binary(Toolchain::Yarn, "1.7.0", "yarn"),
        location(&["/home/me/.notion", "versions", "yarn", "1.7.0", "bin", "yarn"])
    );
    let flat = ToolchainDirs { versions: location(&["C:\\notion\\node"]), bin: Location::new() };
    assert_eq!(flat.bin_dir("10.4.1"), location(&["C:\\notion\\node", "10.4.1"]));
}

#[test]
fn pinned_node_that_is_installed_resolves_to_its_binary() {
    let ctx = context(Some(project(pins(Version::new(10, 4, 1), None))));
    assert_eq!(
        resolve_shim(&ctx, "node"),
        Ok(DispatchTarget::PinnedToolchainBinary(location(&[
            "/home/me/.notion",
            "versions",
            "node",
            "10.4.1",
            "bin",
            "node"
        ])))
    );
    assert_eq!(
        resolve_shim(&ctx, "npm"),
        Ok(DispatchTarget::PinnedToolchainBinary(location(&[
            "/home/me/.notion",
            "versions",
            "node",
            "10.4.1",
            "bin",
            "npm"
        ])))
    );
}

#[test]
fn pinned_node_that_is_not_installed_is_pending() {
    let ctx = context(Some(project(pins(Version::new(9, 0, 0), None))));
    let outcome = resolve_shim(&ctx, "node");
    assert_eq!(outcome, Ok(DispatchTarget::PendingInstall(Version::new(9, 0, 0))));
    assert_eq!(outcome.unwrap().path(), None);
    assert_eq!(
        resolve_node_shims(&ctx, "npm"),
        Ok(DispatchTarget::PendingInstall(Version::new(9, 0, 0)))
    );
}

#[test]
fn pinned_node_counts_as_installed_whatever_its_build_metadata() {
    let mut pinned = Version::new(10, 4, 1);
    pinned.build.push(Identifier::AlphaNumeric("local".to_string()));
    let ctx = context(Some(project(pins(pinned, None))));
    assert_eq!(
        resolve_shim(&ctx, "node"),
        Ok(DispatchTarget::PinnedToolchainBinary(location(&[
            "/home/me/.notion",
            "versions",
            "node",
            "10.4.1+local",
            "bin",
            "node"
        ])))
    );
}

#[test]
fn pinned_node_comes_before_the_user_default() {
    let mut ctx = context(Some(project(pins(Version::new(10, 4, 1), None))));
    ctx.user_node = Lookup::Unavailable;
    assert!(matches!(resolve_shim(&ctx, "node"), Ok(DispatchTarget::PinnedToolchainBinary(_))));
}

#[test]
fn pinned_node_needs_the_catalog() {
    let mut ctx = context(Some(project(pins(Version::new(10, 4, 1), None))));
    ctx.catalog = Lookup::Unavailable;
    assert_eq!(resolve_shim(&ctx, "node"), Err(ResolveError::CatalogUnavailable));
    ctx.layout = Lookup::Unavailable;
    assert_eq!(resolve_shim(&ctx, "node"), Err(ResolveError::CatalogUnavailable));
}

#[test]
fn pinned_node_needs_the_layout_only_when_installed() {
    let mut ctx = context(Some(project(pins(Version::new(10, 4, 1), None))));
    ctx.layout = Lookup::Unavailable;
    assert_eq!(resolve_shim(&ctx, "node"), Err(ResolveError::LayoutUnavailable));
    let mut ctx = context(Some(project(pins(Version::new(9, 0, 0), None))));
    ctx.layout = Lookup::Unavailable;
    assert_eq!(
        resolve_shim(&ctx, "node"),
        Ok(DispatchTarget::PendingInstall(Version::new(9, 0, 0)))
    );
}

#[test]
fn node_without_a_pin_uses_the_user_default() {
    let expected = Ok(DispatchTarget::UserDefaultBinary(location(&[
        "/home/me/.notion",
        "versions",
        "node",
        "8.11.3",
        "bin",
        "node",
    ])));
    assert_eq!(resolve_shim(&context(None), "node"), expected);
    assert_eq!(resolve_shim(&context(Some(project(None))), "node"), expected);
}

#[test]
fn node_user_default_is_not_looked_up_in_the_catalog() {
    let mut ctx = context(None);
    ctx.user_node = Lookup::Known(Some(Version::new(6, 0, 0)));
    ctx.catalog = Lookup::Unavailable;
    assert_eq!(
        resolve_shim(&ctx, "npm"),
        Ok(DispatchTarget::UserDefaultBinary(location(&[
            "/home/me/.notion",
            "versions",
            "node",
            "6.0.0",
            "bin",
            "npm"
        ])))
    );
}

#[test]
fn node_without_pin_or_default_falls_back_to_the_system() {
    let mut ctx = context(None);
    ctx.user_node = Lookup::Known(None);
    assert_eq!(resolve_shim(&ctx, "node"), Ok(DispatchTarget::SystemFallback));
    assert_eq!(resolve_shim(&ctx, "npm"), Ok(DispatchTarget::SystemFallback));
    ctx.layout = Lookup::Unavailable;
    ctx.catalog = Lookup::Unavailable;
    assert_eq!(resolve_shim(&ctx, "node"), Ok(DispatchTarget::SystemFallback));
}

#[test]
fn node_without_a_pin_needs_the_user_defaults_and_the_layout() {
    let mut ctx = context(None);
    ctx.user_node = Lookup::Unavailable;
    assert_eq!(resolve_shim(&ctx, "node"), Err(ResolveError::UserDefaultsUnavailable));
    let mut ctx = context(None);
    ctx.layout = Lookup::Unavailable;
    assert_eq!(resolve_shim(&ctx, "node"), Err(ResolveError::LayoutUnavailable));
}

#[test]
fn pinned_yarn_that_is_installed_resolves_to_its_binary() {
    let ctx = context(Some(project(pins(Version::new(10, 4, 1), Some(Version::new(1, 7, 0))))));
    assert_eq!(
        resolve_shim(&ctx, "yarn"),
        Ok(DispatchTarget::PinnedToolchainBinary(location(&[
            "/home/me/.notion",
            "versions",
            "yarn",
            "1.7.0",
            "bin",
            "yarn"
        ])))
    );
}

#[test]
fn pinned_yarn_that_is_not_installed_is_pending() {
    let ctx = context(Some(project(pins(Version::new(10, 4, 1), Some(Version::new(1, 9, 4))))));
    assert_eq!(
        resolve_yarn_shims(&ctx, "yarn"),
        Ok(DispatchTarget::PendingInstall(Version::new(1, 9, 4)))
    );
}

#[test]
fn pinned_yarn_is_looked_up_among_yarn_versions_only() {
    let ctx = context(Some(project(pins(Version::new(1, 7, 0), Some(Version::new(10, 4, 1))))));
    assert_eq!(
        resolve_shim(&ctx, "yarn"),
        Ok(DispatchTarget::PendingInstall(Version::new(10, 4, 1)))
    );
    assert_eq!(
        resolve_shim(&ctx, "node"),
        Ok(DispatchTarget::PendingInstall(Version::new(1, 7, 0)))
    );
}

#[test]
fn yarn_is_not_installed_where_the_project_pins_node_only() {
    let mut ctx = context(Some(project(pins(Version::new(10, 4, 1), None))));
    assert_eq!(resolve_shim(&ctx, "yarn"), Ok(DispatchTarget::NotInstalled));
    ctx.catalog = Lookup::Known(Catalog { node: vec![], yarn: vec![], yarn_default: None });
    assert_eq!(resolve_shim(&ctx, "yarn"), Ok(DispatchTarget::NotInstalled));
    ctx.catalog = Lookup::Unavailable;
    ctx.layout = Lookup::Unavailable;
    ctx.user_node = Lookup::Unavailable;
    assert_eq!(resolve_shim(&ctx, "yarn"), Ok(DispatchTarget::NotInstalled));
}

#[test]
fn yarn_without_a_pin_uses_the_catalog_default() {
    let expected = Ok(DispatchTarget::UserDefaultBinary(location(&[
        "/home/me/.notion",
        "versions",
        "yarn",
        "1.7.0",
        "bin",
        "yarn",
    ])));
    assert_eq!(resolve_shim(&context(None), "yarn"), expected);
    assert_eq!(resolve_shim(&context(Some(project(None))), "yarn"), expected);
}

#[test]
fn yarn_without_pin_or_default_falls_back_to_the_system() {
    let mut ctx = context(None);
    ctx.catalog = Lookup::Known(Catalog {
        node: vec![],
        yarn: vec![Version::new(1, 7, 0)],
        yarn_default: None,
    });
    assert_eq!(resolve_shim(&ctx, "yarn"), Ok(DispatchTarget::SystemFallback));
}

#[test]
fn yarn_needs_the_catalog_unless_the_project_leaves_yarn_out() {
    let mut ctx = context(None);
    ctx.catalog = Lookup::Unavailable;
    assert_eq!(resolve_shim(&ctx, "yarn"), Err(ResolveError::CatalogUnavailable));
    let mut ctx =
        context(Some(project(pins(Version::new(10, 4, 1), Some(Version::new(1, 7, 0))))));
    ctx.catalog = Lookup::Unavailable;
    assert_eq!(resolve_shim(&ctx, "yarn"), Err(ResolveError::CatalogUnavailable));
    let mut ctx =
        context(Some(project(pins(Version::new(10, 4, 1), Some(Version::new(1, 7, 0))))));
    ctx.layout = Lookup::Unavailable;
    assert_eq!(resolve_shim(&ctx, "yarn"), Err(ResolveError::LayoutUnavailable));
    let mut ctx = context(None);
    ctx.layout = Lookup::Unavailable;
    assert_eq!(resolve_shim(&ctx, "yarn"), Err(ResolveError::LayoutUnavailable));
}

#[test]
fn npx_is_unimplemented_in_every_context() {
    assert_eq!(resolve_npx_shims(), Ok(DispatchTarget::Unimplemented));
    assert_eq!(resolve_shim(&context(None), "npx"), Ok(DispatchTarget::Unimplemented));
    let pinned = context(Some(project(pins(Version::new(10, 4, 1), Some(Version::new(1, 7, 0))))));
    assert_eq!(resolve_shim(&pinned, "npx"), Ok(DispatchTarget::Unimplemented));
    let blind = Context {
        project: None,
        catalog: Lookup::Unavailable,
        user_node: Lookup::Unavailable,
        layout: Lookup::Unavailable,
    };
    assert_eq!(resolve_shim(&blind, "npx"), Ok(DispatchTarget::Unimplemented));
}

#[test]
fn third_party_name_resolves_to_the_projects_binary() {
    let ctx = context(Some(project(None)));
    assert_eq!(
        resolve_shim(&ctx, "eslint"),
        Ok(DispatchTarget::ProjectLocalBinary(location(&[
            "/work/app",
            "node_modules",
            ".bin",
            "eslint"
        ])))
    );
    assert_eq!(
        resolve_3p_shims(&ctx, "tsc"),
        Ok(DispatchTarget::ProjectLocalBinary(location(&[
            "/work/app",
            "node_modules",
            ".bin",
            "tsc"
        ])))
    );
}

#[test]
fn third_party_name_that_the_project_lacks_is_not_installed() {
    let ctx = context(Some(project(None)));
    assert_eq!(resolve_shim(&ctx, "mocha"), Ok(DispatchTarget::NotInstalled));
    assert_eq!(resolve_shim(&ctx, "esl"), Ok(DispatchTarget::NotInstalled));
    assert_eq!(resolve_shim(&ctx, "ESLint"), Ok(DispatchTarget::NotInstalled));
    assert_eq!(resolve_shim(&context(None), "eslint"), Ok(DispatchTarget::NotInstalled));
}

#[test]
fn third_party_name_never_reads_the_catalog() {
    let full = context(Some(project(pins(Version::new(10, 4, 1), None))));
    let mut blind = full.clone();
    blind.catalog = Lookup::Unavailable;
    blind.user_node = Lookup::Unavailable;
    blind.layout = Lookup::Unavailable;
    let mut other = full.clone();
    other.catalog = Lookup::Known(Catalog { node: vec![], yarn: vec![], yarn_default: None });
    other.user_node = Lookup::Known(None);
    for name in ["eslint", "tsc", "mocha", "", "nodejs"] {
        let outcome = resolve_shim(&full, name);
        assert!(outcome.is_ok());
        assert_eq!(resolve_shim(&blind, name), outcome);
        assert_eq!(resolve_shim(&other, name), outcome);
    }
}

#[test]
fn reserved_names_are_never_taken_from_the_project() {
    let mut with_node = project(None);
    with_node.binaries = vec!["node".to_string(), "yarn".to_string(), "npx".to_string()];
    let mut ctx = context(Some(with_node));
    ctx.user_node = Lookup::Known(None);
    ctx.catalog = Lookup::Known(Catalog { node: vec![], yarn: vec![], yarn_default: None });
    assert_eq!(resolve_shim(&ctx, "node"), Ok(DispatchTarget::SystemFallback));
    assert_eq!(resolve_shim(&ctx, "yarn"), Ok(DispatchTarget::SystemFallback));
    assert_eq!(resolve_shim(&ctx, "npx"), Ok(DispatchTarget::Unimplemented));
}

#[test]
fn node_version_is_installed_by_the_catalog() {
    let mut ctx = context(None);
    assert_eq!(is_node_version_installed(&Version::new(10, 4, 1), &ctx), Ok(true));
    assert_eq!(is_node_version_installed(&Version::new(1, 7, 0), &ctx), Ok(false));
    ctx.catalog = Lookup::Unavailable;
    assert_eq!(
        is_node_version_installed(&Version::new(10, 4, 1), &ctx),
        Err(ResolveError::CatalogUnavailable)
    );
}

#[test]
fn catalog_contains_tells_the_toolchains_apart() {
    let catalog = catalog();
    assert!(catalog.contains(Toolchain::Node, &Version::new(8, 11, 3)));
    assert!(catalog.contains(Toolchain::Yarn, &Version::new(1, 7, 0)));
    assert!(!catalog.contains(Toolchain::Yarn, &Version::new(8, 11, 3)));
    assert!(!catalog.contains(Toolchain::Node, &Version::new(1, 7, 0)));
}

#[test]
fn project_has_direct_bin_by_exact_name() {
    let project = project(None);
    assert!(project.has_direct_bin("eslint"));
    assert!(project.has_direct_bin("tsc"));
    assert!(!project.has_direct_bin("ts"));
    assert!(!project.has_direct_bin(""));
}

#[test]
fn target_path_is_there_for_binaries_only() {
    let path = location(&["a", "b"]);
    assert_eq!(DispatchTarget::ProjectLocalBinary(path.clone()).path(), Some(&path));
    assert_eq!(DispatchTarget::PinnedToolchainBinary(path.clone()).path(), Some(&path));
    assert_eq!(DispatchTarget::UserDefaultBinary(path.clone()).path(), Some(&path));
    assert_eq!(DispatchTarget::SystemFallback.path(), None);
    assert_eq!(DispatchTarget::NotInstalled.path(), None);
    assert_eq!(DispatchTarget::Unimplemented.path(), None);
    assert_eq!(DispatchTarget::PendingInstall(Version::new(1, 0, 0)).path(), None);
}

#[test]
fn resolve_errors_are_infrastructure_errors() {
    assert_eq!(
        ResolveError::CatalogUnavailable.class(),
        ErrorClass::UnresolvedInfrastructureError
    );
    assert_eq!(
        ResolveError::UserDefaultsUnavailable.class(),
        ErrorClass::UnresolvedInfrastructureError
    );
    assert_eq!(ResolveError::LayoutUnavailable.class(), ErrorClass::UnresolvedInfrastructureError);
}

#[test]
fn location_join_and_concat_append_components() {
    let base = location(&["a"]);
    assert_eq!(base.join("b"), location(&["a", "b"]));
    assert_eq!(base.concat(&location(&["b", "c"])), location(&["a", "b", "c"]));
    assert_eq!(base.concat(&Location::new()), base);
    assert_eq!(Location::new().join("x"), location(&["x"]));
    assert_eq!(base, location(&["a"]));
}

#[test]
fn clone_keeps_every_part_of_a_context() {
    let ctx = context(Some(project(pins(Version::new(10, 4, 1), Some(Version::new(1, 7, 0))))));
    assert_eq!(ctx.clone(), ctx);
    let bare = Context {
        project: Some(project(None)),
        catalog: Lookup::Unavailable,
        user_node: Lookup::Known(None),
        layout: Lookup::Unavailable,
    };
    assert_eq!(bare.clone(), bare);
    assert_ne!(bare.clone(), ctx);
}
