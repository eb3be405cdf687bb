# openscenario

The data model of OpenSCENARIO 1.3 scenario and catalog files, with its logic verified
by Verus: the parameter substitution map, the resolution of parameterised attribute
values, the resolution of catalog entries (vehicles, controllers, pedestrians,
miscellaneous objects, environments, routes, trajectories) into scenario elements, the
rules of object controllers, the wire names of the enumerations, and the conversion and
classification of schema-validation diagnostics.

## Layout

- `src/`: the verified library. `params` is the substitution map, `basic` the attribute
  values and their resolution, `catalogs` the catalog entries, `enums` the enumerations,
  `validation` the diagnostics; the other modules hold the scenario elements.
- `tests/`: tests of the library on concrete values.
- `app/`: what stands outside the verified core: schema validation through libxml,
  computations on floating-point numbers (rectangular areas, uniform weights, wheelbase,
  footprint, steerability) and the conversion of chrono date-times.

Real-number attributes are held as the text they are written in (`Real`), so that the
library never computes with floating-point values.
