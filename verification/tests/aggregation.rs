use builder_core::container::{
    aggregate_project_by_id, aggregate_projects_by_client, aggregate_prototypes_by_template,
    aggregate_template,
};
use builder_core::ids::parse_id;
use builder_core::response::{build_project, build_template};
use builder_core::{
    Category, CollectionsContainer, Connection, Feature, File, Project, ProjectState, Prototype,
    PrototypeNode, Template,
};

fn image(n: &str) -> File {
    File { name: n.to_string(), src: format!("/media/uploads/{}", n) }
}

fn category() -> Category {
    Category {
        name: "UI Kits".to_string(),
        description: "Reusable interface building blocks".to_string(),
        image: image("c.png"),
    }
}

fn feature(name: &str, price: u64) -> Feature {
    Feature {
        name: name.to_string(),
        description: format!("{} support", name),
        feature_type: "module".to_string(),
        image: image("f.png"),
        wireframes: None,
        price,
        repo: "https://example.invalid/repo.git".to_string(),
    }
}

#[test]
fn template_aggregation_replaces_references_with_documents() {
    let mut c = CollectionsContainer::new();
    let cat_id = c.category.insert_one(category()).unwrap();
    let f1 = c.feature.insert_one(feature("login", 1500)).unwrap();
    let f2 = c.feature.insert_one(feature("search", 2500)).unwrap();
    let t_id = c
        .template
        .insert_one(Template {
            name: "Shop".to_string(),
            description: "Web shop starter".to_string(),
            image: image("t.png"),
            category: cat_id,
            features: vec![f1, f2],
            specification: None,
        })
        .unwrap();

    let agg = aggregate_template(&c, &t_id).unwrap();
    assert_eq!(agg.id, t_id);
    let resolved_category = agg.category.as_ref().unwrap();
    assert_eq!(resolved_category.id, cat_id);
    assert_eq!(resolved_category.doc, category());
    assert_eq!(agg.features.len(), 2);
    assert_eq!(agg.features[0].id, f1);
    assert_eq!(agg.features[0].doc, feature("login", 1500));
    assert_eq!(agg.features[1].id, f2);
    assert_eq!(agg.features[1].doc, feature("search", 2500));
}

#[test]
fn dangling_references_are_omitted_not_an_error() {
    let mut c = CollectionsContainer::new();
    let f1 = c.feature.insert_one(feature("login", 1500)).unwrap();
    let ghost_cat = parse_id("00000000000000000000aaaa").unwrap();
    let ghost_feat = parse_id("00000000000000000000bbbb").unwrap();
    let t_id = c
        .template
        .insert_one(Template {
            name: "Shop".to_string(),
            description: "Web shop starter".to_string(),
            image: image("t.png"),
            category: ghost_cat,
            features: vec![ghost_feat, f1],
            specification: None,
        })
        .unwrap();

    let agg = aggregate_template(&c, &t_id).unwrap();
    assert!(agg.category.is_none());
    assert_eq!(agg.features.len(), 1);
    assert_eq!(agg.features[0].id, f1);
}

#[test]
fn aggregating_an_absent_template_is_not_found() {
    let c = CollectionsContainer::new();
    let ghost = parse_id("00000000000000000000cccc").unwrap();
    assert!(aggregate_template(&c, &ghost).is_none());
}

#[test]
fn template_without_specification_gets_the_default_empty_one() {
    let mut c = CollectionsContainer::new();
    let t_id = c
        .template
        .insert_one(Template {
            name: "Bare".to_string(),
            description: "No specification stored".to_string(),
            image: image("t.png"),
            category: parse_id("00000000000000000000aaaa").unwrap(),
            features: vec![],
            specification: None,
        })
        .unwrap();
    let resp = build_template(&aggregate_template(&c, &t_id).unwrap());
    assert_eq!(resp.specification.introduction.purpose, "");
    assert_eq!(resp.specification.other_requirements, "");
    assert_eq!(resp.specification.non_functional_requirements.safety_requirements, "");
    assert!(resp.category.is_none());
    assert_eq!(resp.features.len(), 0);
}

#[test]
fn prototype_aggregation_by_template_resolves_node_features() {
    let mut c = CollectionsContainer::new();
    let f1 = c.feature.insert_one(feature("login", 1500)).unwrap();
    let ghost_feat = parse_id("00000000000000000000dddd").unwrap();
    let t_id = parse_id("00000000000000000000eeee").unwrap();
    c.prototype
        .insert_one(Prototype {
            template_id: t_id,
            nodes: vec![
                PrototypeNode { feature_id: f1, connections: vec![] },
                PrototypeNode {
                    feature_id: ghost_feat,
                    connections: vec![Connection { to: f1, relation: "next".to_string() }],
                },
            ],
        })
        .unwrap();

    let aggs = aggregate_prototypes_by_template(&c, &t_id);
    assert_eq!(aggs.len(), 1);
    let agg = &aggs[0];
    assert_eq!(agg.template_id, t_id);
    assert_eq!(agg.nodes.len(), 2);
    assert_eq!(agg.nodes[0].feature.as_ref().unwrap(), &feature("login", 1500));
    assert!(agg.nodes[1].feature.is_none());
    assert_eq!(agg.nodes[1].connections.len(), 1);
    assert_eq!(agg.nodes[1].connections[0].to, f1);
}

#[test]
fn prototype_aggregation_keeps_only_matching_templates_in_order() {
    let mut c = CollectionsContainer::new();
    let t1 = parse_id("00000000000000000000eee1").unwrap();
    let t2 = parse_id("00000000000000000000eee2").unwrap();
    let p1 = c.prototype.insert_one(Prototype { template_id: t1, nodes: vec![] }).unwrap();
    c.prototype.insert_one(Prototype { template_id: t2, nodes: vec![] }).unwrap();
    let p3 = c.prototype.insert_one(Prototype { template_id: t1, nodes: vec![] }).unwrap();

    let aggs = aggregate_prototypes_by_template(&c, &t1);
    assert_eq!(aggs.len(), 2);
    assert_eq!(aggs[0].id, p1);
    assert_eq!(aggs[1].id, p3);
}

fn project(client: builder_core::Id, template: builder_core::Id, features: Vec<builder_core::Id>) -> Project {
    Project {
        client_id: client,
        name: "Shop build".to_string(),
        platforms: vec!["web".to_string(), "ios".to_string()],
        template,
        features,
        state: ProjectState::Draft,
        proposal: "A web shop".to_string(),
        deliverable: "mvp".to_string(),
        total_price: 400000,
        mvp: None,
        design: None,
        full_build: None,
    }
}

#[test]
fn project_aggregation_resolves_template_and_features() {
    let mut c = CollectionsContainer::new();
    let f1 = c.feature.insert_one(feature("login", 1500)).unwrap();
    let t_id = c
        .template
        .insert_one(Template {
            name: "Shop".to_string(),
            description: "Web shop starter".to_string(),
            image: image("t.png"),
            category: parse_id("00000000000000000000aaaa").unwrap(),
            features: vec![f1],
            specification: None,
        })
        .unwrap();
    let client = parse_id("00000000000000000000abcd").unwrap();
    let p_id = c.project.insert_one(project(client, t_id, vec![f1])).unwrap();

    let agg = aggregate_project_by_id(&c, &p_id).unwrap();
    assert_eq!(agg.id, p_id);
    assert_eq!(agg.template.as_ref().unwrap().id, t_id);
    assert_eq!(agg.features.len(), 1);
    assert_eq!(agg.features[0].id, f1);

    let by_client = aggregate_projects_by_client(&c, &client);
    assert_eq!(by_client.len(), 1);
    assert_eq!(by_client[0].id, p_id);
    let other_client = parse_id("00000000000000000000efef").unwrap();
    assert_eq!(aggregate_projects_by_client(&c, &other_client).len(), 0);
}

#[test]
fn project_with_unknown_template_still_aggregates_partially() {
    let mut c = CollectionsContainer::new();
    let client = parse_id("00000000000000000000abcd").unwrap();
    let ghost_template = parse_id("00000000000000000000ffff").unwrap();
    let p_id = c.project.insert_one(project(client, ghost_template, vec![])).unwrap();

    let agg = aggregate_project_by_id(&c, &p_id).unwrap();
    assert!(agg.template.is_none());
    assert_eq!(agg.name, "Shop build");

    let resp = build_project(&agg);
    assert!(resp.template.is_none());
    assert_eq!(resp.name, "Shop build");
    assert_eq!(resp.platforms, vec!["web".to_string(), "ios".to_string()]);
    assert_eq!(resp.total_price, 400000);
}
