use hvertex::units::{enumerate_units, has_extension_ci, output_path_for, path_join, DirTree};

fn sample_tree() -> DirTree {
    DirTree::Dir {
        name: String::from("docs"),
        children: vec![
            DirTree::File { name: String::from("a.PDF") },
            DirTree::Dir {
                name: String::from("sub"),
                children: vec![
                    DirTree::File { name: String::from("b.pdf") },
                    DirTree::File { name: String::from("c.txt") },
                ],
            },
            DirTree::File { name: String::from("d.pdfx") },
            DirTree::File { name: String::from("pdf") },
        ],
    }
}

#[test]
fn test_enumerate_filters_by_extension() {
    let tree = sample_tree();
    let units = enumerate_units(&tree, "", "pdf");
    assert_eq!(
        units,
        vec![String::from("docs/a.PDF"), String::from("docs/sub/b.pdf")]
    );
}

#[test]
fn test_enumerate_twice_yields_same_units() {
    // Idempotence: an unchanged tree enumerates to the same identities in
    // the same traversal order.
    let tree = sample_tree();
    let first = enumerate_units(&tree, "in", "pdf");
    let second = enumerate_units(&tree, "in", "pdf");
    assert_eq!(first, second);
    assert_eq!(first, vec![String::from("in/docs/a.PDF"), String::from("in/docs/sub/b.pdf")]);
}

#[test]
fn test_enumerate_empty_dir() {
    let tree = DirTree::Dir { name: String::from("empty"), children: vec![] };
    assert_eq!(enumerate_units(&tree, "", "pdf"), Vec::<String>::new());
}

#[test]
fn test_has_extension_ci() {
    assert!(has_extension_ci("report.pdf", "pdf"));
    assert!(has_extension_ci("report.PDF", "pdf"));
    assert!(has_extension_ci("report.Pdf", "PDF"));
    assert!(!has_extension_ci("report.pdfx", "pdf"));
    assert!(!has_extension_ci("reportpdf", "pdf"));
    assert!(!has_extension_ci("pdf", "pdf"));
    assert!(!has_extension_ci("", "pdf"));
}

#[test]
fn test_path_join() {
    assert_eq!(path_join("", "a.pdf"), "a.pdf");
    assert_eq!(path_join("docs", "a.pdf"), "docs/a.pdf");
    assert_eq!(path_join("docs/sub", "a.pdf"), "docs/sub/a.pdf");
}

#[test]
fn test_output_path_mirrors_tree_with_new_extension() {
    assert_eq!(output_path_for("out", "docs/a.pdf", "json"), "out/docs/a.json");
    assert_eq!(output_path_for("", "a.pdf", "json"), "a.json");
    // A dot in a directory name is not the extension separator.
    assert_eq!(output_path_for("out", "di.r/file.pdf", "json"), "out/di.r/file.json");
    // A final component with no dot gains the new extension.
    assert_eq!(output_path_for("out", "di.r/file", "json"), "out/di.r/file.json");
    assert_eq!(output_path_for("out", "a.b.pdf", "json"), "out/a.b.json");
}
