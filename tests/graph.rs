use so_sysinfo::facts::{collect, MachineFacts};
use so_sysinfo::graph::{build_graph, CollectedNode, GraphEdge, KindFacts};
use so_sysinfo::kind::SystemComponentKind;

fn answer(kind: SystemComponentKind, values: &[&str]) -> KindFacts {
    KindFacts {
        kind,
        values: values.iter().map(|v| v.to_string()).collect(),
    }
}

fn edge(from_node: usize, from_port: usize, to_node: usize, to_port: usize) -> GraphEdge {
    GraphEdge {
        from_node,
        from_port,
        to_node,
        to_port,
    }
}

fn every_kind_answering() -> Vec<KindFacts> {
    vec![
        answer(SystemComponentKind::Cpu, &["8x Exemplary CPU"]),
        answer(SystemComponentKind::SystemMemory, &["15.5 GiB"]),
        answer(SystemComponentKind::Gpu, &[]),
        answer(SystemComponentKind::BoardModel, &["Generic"]),
        answer(SystemComponentKind::OperatingSystem, &["Debian (x86_64)"]),
        answer(SystemComponentKind::CurrentShell, &["zsh"]),
        answer(SystemComponentKind::TerminalEmulator, &["WezTerm"]),
        answer(SystemComponentKind::WindowManager, &["sway"]),
        answer(SystemComponentKind::DesktopEnvironment, &["GNOME"]),
    ]
}

#[test]
fn cpu_and_board_only() {
    let facts = vec![
        answer(SystemComponentKind::Cpu, &["8x Exemplary CPU"]),
        answer(SystemComponentKind::SystemMemory, &[]),
        answer(SystemComponentKind::Gpu, &[]),
        answer(SystemComponentKind::BoardModel, &["Generic"]),
        answer(SystemComponentKind::OperatingSystem, &[]),
        answer(SystemComponentKind::CurrentShell, &[]),
        answer(SystemComponentKind::TerminalEmulator, &[]),
        answer(SystemComponentKind::WindowManager, &[]),
        answer(SystemComponentKind::DesktopEnvironment, &[]),
    ];
    let (nodes, edges) = build_graph(&facts);
    assert_eq!(
        nodes,
        vec![
            CollectedNode {
                width: 20,
                height: 3,
                title: "[ CPU ]",
                body: " 8x Exemplary CPU ".to_string(),
            },
            CollectedNode {
                width: 11,
                height: 3,
                title: "[ Model ]",
                body: " Generic ".to_string(),
            },
        ]
    );
    assert_eq!(edges, vec![edge(0, 0, 1, 0)]);
}

#[test]
fn full_catalog_edges_and_ports() {
    let (nodes, edges) = build_graph(&every_kind_answering());
    let titles: Vec<&str> = nodes.iter().map(|n| n.title).collect();
    assert_eq!(
        titles,
        vec![
            "[ CPU ]",
            "[ RAM ]",
            "[ Model ]",
            "[ OS ]",
            "[ Shell ]",
            "[ Terminal ]",
            "[ WM ]",
            "[ DE ]"
        ]
    );
    assert_eq!(
        edges,
        vec![
            edge(0, 0, 2, 0),
            edge(1, 0, 2, 1),
            edge(2, 0, 3, 0),
            edge(3, 0, 5, 0),
            edge(3, 1, 6, 0),
            edge(3, 2, 7, 0),
            edge(5, 0, 4, 0),
        ]
    );
    let heights: Vec<usize> = nodes.iter().map(|n| n.height).collect();
    assert_eq!(heights, vec![3, 3, 4, 5, 3, 3, 3, 3]);
    assert_eq!(nodes[3].width, 19);
    assert_eq!(nodes[3].body, " Debian (x86_64) ");
}

#[test]
fn node_count_is_value_count() {
    let mut facts = every_kind_answering();
    facts[7] = answer(SystemComponentKind::WindowManager, &["sway", "i3"]);
    let (nodes, _) = build_graph(&facts);
    assert_eq!(nodes.len(), 9);
    let (nodes, edges) = build_graph(&Vec::new());
    assert!(nodes.is_empty());
    assert!(edges.is_empty());
}

#[test]
fn repeated_kind_shares_links() {
    let mut facts = every_kind_answering();
    facts[7] = answer(SystemComponentKind::WindowManager, &["sway", "i3"]);
    let (nodes, edges) = build_graph(&facts);
    // The OS box (3) reaches the terminal, both window managers and the desktop.
    let from_os: Vec<GraphEdge> = edges.iter().copied().filter(|e| e.from_node == 3).collect();
    assert_eq!(
        from_os,
        vec![
            edge(3, 0, 5, 0),
            edge(3, 1, 6, 0),
            edge(3, 2, 7, 0),
            edge(3, 3, 8, 0)
        ]
    );
    assert_eq!(nodes[3].height, 6);
}

#[test]
fn box_size_covers_text_and_ports() {
    let (nodes, _) = build_graph(&every_kind_answering());
    for n in &nodes {
        assert!(n.width >= n.title.len().max(n.body.len()) + 2);
        assert!(n.height >= 2);
    }
    // A wide body decides the width; a short one leaves it to the title.
    assert_eq!(nodes[5].width, 14);
    assert_eq!(nodes[5].body, " WezTerm ");
}

#[test]
fn width_counts_bytes() {
    let facts = vec![answer(SystemComponentKind::Cpu, &["Äpfel-Prozessor mit sehr langer Beschreibung"])];
    let (nodes, _) = build_graph(&facts);
    assert_eq!(nodes[0].width, " Äpfel-Prozessor mit sehr langer Beschreibung ".len() + 2);
}

#[test]
fn ports_are_dense_per_node() {
    let (nodes, edges) = build_graph(&every_kind_answering());
    for a in 0..nodes.len() {
        let mut outs: Vec<usize> = edges.iter().filter(|e| e.from_node == a).map(|e| e.from_port).collect();
        let mut ins: Vec<usize> = edges.iter().filter(|e| e.to_node == a).map(|e| e.to_port).collect();
        outs.sort();
        ins.sort();
        assert_eq!(outs, (0..outs.len()).collect::<Vec<_>>());
        assert_eq!(ins, (0..ins.len()).collect::<Vec<_>>());
        assert_eq!(nodes[a].height, outs.len().max(ins.len()) + 2);
    }
}

#[test]
fn edges_follow_links() {
    let facts = every_kind_answering();
    let kinds: Vec<SystemComponentKind> = facts
        .iter()
        .flat_map(|f| f.values.iter().map(move |_| f.kind))
        .collect();
    let (_, edges) = build_graph(&facts);
    for a in 0..kinds.len() {
        for b in 0..kinds.len() {
            let linked = kinds[a].get_links().contains(&kinds[b]);
            let joined = edges.iter().filter(|e| e.from_node == a && e.to_node == b).count();
            assert_eq!(joined, if linked { 1 } else { 0 });
        }
    }
}

#[test]
fn building_twice_gives_the_same_graph() {
    let first = build_graph(&every_kind_answering());
    let second = build_graph(&every_kind_answering());
    assert_eq!(first, second);
}

#[test]
fn unsupported_kind_leaves_no_trace() {
    // No GPU box: nothing else changes, and nothing points at a GPU.
    let (nodes, edges) = build_graph(&every_kind_answering());
    assert!(nodes.iter().all(|n| n.title != "[ GPU ]"));
    assert!(edges.iter().all(|e| e.from_node < nodes.len() && e.to_node < nodes.len()));
}

#[test]
fn missing_board_model_cuts_its_edges() {
    let mut facts = every_kind_answering();
    facts[3] = answer(SystemComponentKind::BoardModel, &[]);
    let (nodes, edges) = build_graph(&facts);
    assert_eq!(nodes.len(), 7);
    assert!(nodes.iter().all(|n| n.title != "[ Model ]"));
    // CPU and RAM link only to the board model, so they have no edges now.
    assert!(edges.iter().all(|e| e.from_node > 1 && e.to_node > 1));
    assert_eq!(nodes[0].height, 2);
    assert_eq!(nodes[2].title, "[ OS ]");
    assert_eq!(nodes[2].height, 5);
}

#[test]
fn collect_asks_every_kind() {
    let facts = MachineFacts {
        cpu_cores: 8,
        cpu_model: Some("Exemplary CPU".to_string()),
        memory: None,
        board_model: None,
        os_name: None,
        distribution: None,
        architecture: None,
        shell: None,
        terminal: None,
        window_manager: None,
        desktop_environment: None,
    };
    let (nodes, edges) = collect(&facts);
    let bodies: Vec<&str> = nodes.iter().map(|n| n.body.as_str()).collect();
    assert_eq!(bodies, vec![" 8x Exemplary CPU ", " Generic ", " Unknown "]);
    assert_eq!(edges, vec![edge(0, 0, 1, 0), edge(1, 0, 2, 0)]);
}
