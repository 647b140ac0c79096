# xmile

Reading and writing helpers for XMILE system-dynamics models, verified with Verus.

- `src/` is the verified library:
  - `text`: decimal formatting and parsing, white-space trimming, joining, and the calls into
    `quick_xml::escape` and `std` string conversions it builds on.
  - `de`: typed attribute maps (`Attrs`), the decisions taken while reading XML events
    (skipping a subtree, collecting an element's text), the reading cursor's path, and
    `non_negative` text.
  - `ser`: attribute lists (`AttrList`) and the event emitter (`XmlEmitter`), which records
    the XML events of a document in order.
  - `serialize`: the events of groups, modules, dimensions, headers, units, behaviour, data
    connections and model events.
  - `view`, `actions`: the enumerated attribute values of view objects, link targets, menu
    and data actions, and connector ends, with their writers and readers.
  - `variables`: reading stocks, flows and auxiliaries: the settings read from the
    attributes of their `range`, `scale`, `format` and `conveyor` children, the step that folds each child
    element into the variable being read, and the checks that end the reading.
  - `grouping`: reading modules with their connections and groups with their members.
  - `diagram`, `objects`: reading a view's attributes, deciding which display object each
    element inside it stands for and filing it by kind, writing a view's start tag (and
    the law that a written view header reads back),
    and reading the display attributes of objects and the attributes of buttons (with their
    images and switch actions) and tables (with their header styling and items).
  - `variable_events`: the events of stocks, flows and auxiliaries with their range,
    scale and format settings, and the laws that written settings read back.
  - `object_events`: the events of the display objects of stocks, auxiliaries and modules,
    with their display attributes and shapes, of flows, aliases and groups, and of connectors
    with their ends and points.
  - `button_events`: the events of a button display object, with its display attributes,
    image, link, menu action and switch action, and the law that a written button's own
    attributes read back.
  - `style`, `tables`, `links`: the events of a view's style and of a table display object;
    writing and reading a button's link, and the law that a written link reads back.
  - `model`, `schema`: the model's variables, views, header and file structure, and model
    validation.
  - `validation`, `errors`: structural checks of a model, and the error types with their
    messages.
- `app/` holds what touches the outside world: the reading loops over a `quick_xml::Reader`
  (stocks, flows, auxiliaries, modules, groups, views and tables among them), writing
  recorded events through a `quick_xml::Writer`, serde forms of the model, error types with
  `Display`, and the floating-point helpers.
- `tests/` exercises the library from outside.
