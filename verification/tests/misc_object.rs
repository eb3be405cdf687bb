use openscenario::basic::{Double, Real};
use openscenario::entities::misc_object::MiscObject;
use openscenario::enums::MiscObjectCategory;

fn r(x: f64) -> Real {
    Real::new(&format!("{:?}", x))
}

fn lit(v: &Double) -> Option<f64> {
    v.as_literal().map(|x| x.as_str().parse::<f64>().unwrap())
}

#[test]
fn test_misc_object_new() {
    let obj = MiscObject::new("Barrier1".to_string(), r(100.0), MiscObjectCategory::Barrier);

    assert_eq!(obj.name.as_literal().unwrap(), "Barrier1");
    assert_eq!(lit(&obj.mass).unwrap(), 100.0);
    assert_eq!(obj.misc_object_category, MiscObjectCategory::Barrier);
    assert!(obj.model3d.is_none());
    assert!(obj.properties.is_none());
}
